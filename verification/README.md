# onvif_camera

A simulated ONVIF IP camera: it answers the device, media, media2 and PTZ
SOAP services, keeps a pan/tilt/zoom position and a list of presets, and
streams rendered frames.

- `src/` is the verified library (Verus):
  - `xml.rs`: a request parsed by roxmltree, copied node by node into a
    document-ordered list, and the searches made on it (first descendant with
    a tag name, first element child, text, attribute).
  - `onvif.rs`: the fixed replies of the device and media services, the
    operation named by a SOAP request, and the device service's reply.
  - `ptz.rs`: the camera state and its presets, the parameters of the PTZ
    requests, the `GetPresets` reply, the handling of each PTZ request, and
    the laws that relate `SetPreset`, `GotoPreset` and the other requests.
  - `text.rs`: suffix test and decimal notation.
- `app/` is the program around it: the axum servers, the `f32` arithmetic of
  `RelativeMove`, and frame rendering.
- `tests/` runs the library on concrete requests.
