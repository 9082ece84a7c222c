//! The ONVIF device, media and media2 services: their fixed replies and the
//! choice of reply for a SOAP request.
use vstd::prelude::*;

use crate::text::{ends_with, has_suffix};
use crate::xml::{
    find_descendant, first_element_child, is_first_element_child, is_first_named,
    law_find_descendant_finds_first_named, law_find_descendant_finds_nothing,
    law_first_element_child_finds_first, parse_xml, subtree_end, xml_is_element, xml_name,
    xml_parse, XmlNodeData, XmlTree,
};

verus! {

/// Reply to `GetServices`.
pub const SERVICES_RESPONSE: &'static str = r#"
    <?xml version='1.0' encoding='UTF-8'?>
        <env:Envelope                                      ><env:Body><tds:GetServicesResponse><tds:Service><tds:Namespace>http://www.onvif.org/ver10/device/wsdl</tds:Namespace>
        <tds:XAddr>http://192.168.20.166:9296/onvif/device_service</tds:XAddr>
        <tds:Capabilities><tds:Capabilities><tds:Network IPFilter='true' ZeroConfiguration='true' IPVersion6='true' DynDNS='true' Dot11Configuration='false' Dot1XConfigurations='0' HostnameFromDHCP='true' NTP='1' DHCPv6='true'></tds:Network>
        <tds:Security TLS1.0='true' TLS1.1='true' TLS1.2='true' OnboardKeyGeneration='false' AccessPolicyConfig='false' DefaultAccessPolicy='true' Dot1X='false' RemoteUserHandling='false' X.509Token='false' SAMLToken='false' KerberosToken='false' UsernameToken='true' HttpDigest='true' RELToken='false' SupportedEAPMethods='0' MaxUsers='32' MaxUserNameLength='32' MaxPasswordLength='16'></tds:Security>
        <tds:System DiscoveryResolve='false' DiscoveryBye='true' RemoteDiscovery='false' SystemBackup='false' SystemLogging='true' FirmwareUpgrade='true' HttpFirmwareUpgrade='true' HttpSystemBackup='false' HttpSystemLogging='false' HttpSupportInformation='false' StorageConfiguration='true' MaxStorageConfigurations='8' GeoLocationEntries='2' AutoGeo='Location'></tds:System>
        </tds:Capabilities>
        </tds:Capabilities>
        <tds:Version><tt:Major>18</tt:Major>
        <tt:Minor>12</tt:Minor>
        </tds:Version>
        </tds:Service>
        <tds:Service><tds:Namespace>http://www.onvif.org/ver10/media/wsdl</tds:Namespace>
        <tds:XAddr>http://192.168.20.166:9296/onvif/Media</tds:XAddr>
        <tds:Capabilities><trt:Capabilities SnapshotUri='true' Rotation='false' VideoSourceMode='false' OSD='true'><trt:ProfileCapabilities MaximumNumberOfProfiles='20'></trt:ProfileCapabilities>
        <trt:StreamingCapabilities RTPMulticast='true' RTP_TCP='true' RTP_RTSP_TCP='true' NonAggregateControl='false'></trt:StreamingCapabilities>
        </trt:Capabilities>
        </tds:Capabilities>
        <tds:Version><tt:Major>2</tt:Major>
        <tt:Minor>60</tt:Minor>
        </tds:Version>
        </tds:Service>
        <tds:Service><tds:Namespace>http://www.onvif.org/ver10/events/wsdl</tds:Namespace>
        <tds:XAddr>http://192.168.20.166:9296/onvif/Events</tds:XAddr>
        <tds:Capabilities><tev:Capabilities WSSubscriptionPolicySupport='true' WSPullPointSupport='true' WSPausableSubscriptionManagerInterfaceSupport='false' MaxNotificationProducers='10' MaxPullPoints='10'></tev:Capabilities>
        </tds:Capabilities>
        <tds:Version><tt:Major>2</tt:Major>
        <tt:Minor>60</tt:Minor>
        </tds:Version>
        </tds:Service>
        <tds:Service><tds:Namespace>http://www.onvif.org/ver20/ptz/wsdl</tds:Namespace>
        <tds:XAddr>http://192.168.20.166:9296/onvif/PTZ</tds:XAddr>
        <tds:Capabilities><tptz:Capabilities EFlip='false' Reverse='false' GetCompatibleConfigurations='true' MoveStatus='true' StatusPosition='true'></tptz:Capabilities>
        </tds:Capabilities>
        <tds:Version><tt:Major>16</tt:Major>
        <tt:Minor>12</tt:Minor>
        </tds:Version>
        </tds:Service>
        <tds:Service><tds:Namespace>http://www.onvif.org/ver20/imaging/wsdl</tds:Namespace>
        <tds:XAddr>http://192.168.20.166:9296/onvif/Imaging</tds:XAddr>
        <tds:Capabilities><timg:Capabilities ImageStabilization='false'></timg:Capabilities>
        </tds:Capabilities>
        <tds:Version><tt:Major>16</tt:Major>
        <tt:Minor>6</tt:Minor>
        </tds:Version>
        </tds:Service>
        <tds:Service><tds:Namespace>http://www.onvif.org/ver10/deviceIO/wsdl</tds:Namespace>
        <tds:XAddr>http://192.168.20.166:9296/onvif/DeviceIO</tds:XAddr>
        <tds:Capabilities><tmd:Capabilities VideoSources='1' VideoOutputs='0' AudioSources='1' AudioOutputs='1' RelayOutputs='2' DigitalInputs='7' SerialPorts='1' DigitalInputOptions='true'></tmd:Capabilities>
        </tds:Capabilities>
        <tds:Version><tt:Major>16</tt:Major>
        <tt:Minor>12</tt:Minor>
        </tds:Version>
        </tds:Service>
        <tds:Service><tds:Namespace>http://www.onvif.org/ver20/analytics/wsdl</tds:Namespace>
        <tds:XAddr>http://192.168.20.166:9296/onvif/Analytics</tds:XAddr>
        <tds:Capabilities><tan:Capabilities RuleSupport='true' AnalyticsModuleSupport='true' CellBasedSceneDescriptionSupported='true' RuleOptionsSupported='true' AnalyticsModuleOptionsSupported='false'/>
        </tds:Capabilities>
        <tds:Version><tt:Major>16</tt:Major>
        <tt:Minor>12</tt:Minor>
        </tds:Version>
        </tds:Service>
        <tds:Service><tds:Namespace>http://www.onvif.org/ver10/recording/wsdl</tds:Namespace>
        <tds:XAddr>http://192.168.20.166:9296/onvif/Recording</tds:XAddr>
        <tds:Capabilities><trc:Capabilities DynamicRecordings='false' DynamicTracks='false' Encoding='G711 G726 AAC H264 H265 JPEG' MaxRate='16384' MaxTotalRate='16384' MaxRecordings='1' MaxRecordingJobs='1' Options='true'></trc:Capabilities>
        </tds:Capabilities>
        <tds:Version><tt:Major>16</tt:Major>
        <tt:Minor>12</tt:Minor>
        </tds:Version>
        </tds:Service>
        <tds:Service><tds:Namespace>http://www.onvif.org/ver10/search/wsdl</tds:Namespace>
        <tds:XAddr>http://192.168.20.166:9296/onvif/SearchRecording</tds:XAddr>
        <tds:Capabilities><tse:Capabilities MetadataSearch='false' GeneralStartEvents='false'></tse:Capabilities>
        </tds:Capabilities>
        <tds:Version><tt:Major>2</tt:Major>
        <tt:Minor>42</tt:Minor>
        </tds:Version>
        </tds:Service>
        <tds:Service><tds:Namespace>http://www.onvif.org/ver10/replay/wsdl</tds:Namespace>
        <tds:XAddr>http://192.168.20.166:9296/onvif/Replay</tds:XAddr>
        <tds:Capabilities><trp:Capabilities ReversePlayback='false' SessionTimeoutRange='1 60' RTP_RTSP_TCP='true'></trp:Capabilities>
        </tds:Capabilities>
        <tds:Version><tt:Major>2</tt:Major>
        <tt:Minor>21</tt:Minor>
        </tds:Version>
        </tds:Service>
        <tds:Service><tds:Namespace>http://www.onvif.org/ver20/media/wsdl</tds:Namespace>
        <tds:XAddr>http://192.168.20.166:9296/onvif/Media2</tds:XAddr>
        <tds:Capabilities><tr2:Capabilities SnapshotUri='true' Rotation='false' VideoSourceMode='false' OSD='true' Mask='true' SourceMask='true'><tr2:ProfileCapabilities MaximumNumberOfProfiles='20' ConfigurationsSupported='VideoSource VideoEncoder AudioSource AudioEncoder AudioOutput AudioDecoder Metadata Analytics PTZ'></tr2:ProfileCapabilities>
        <tr2:StreamingCapabilities RTSPStreaming='true' RTPMulticast='true' RTP_RTSP_TCP='true' NonAggregateControl='false' AutoStartMulticast='true'></tr2:StreamingCapabilities>
        </tr2:Capabilities>
        </tds:Capabilities>
        <tds:Version><tt:Major>16</tt:Major>
        <tt:Minor>12</tt:Minor>
        </tds:Version>
        </tds:Service>
        </tds:GetServicesResponse>
        </env:Body>
        </env:Envelope>`;
    "#;

/// Reply to `GetSystemDateAndTime`.
pub const SYSTEM_DATE_AND_TIME_RESPONSE: &'static str = r#"
        <?xml version='1.0' encoding='UTF-8'?>
        <env:Envelope xmlns:env='http://www.w3.org/2003/05/soap-envelope' xmlns:soapenc='http://www.w3.org/2003/05/soap-encoding' xmlns:xsi='http://www.w3.org/2001/XMLSchema-instance' xmlns:xs='http://www.w3.org/2001/XMLSchema' xmlns:tt='http://www.onvif.org/ver10/schema' xmlns:tds='http://www.onvif.org/ver10/device/wsdl' xmlns:trt='http://www.onvif.org/ver10/media/wsdl' xmlns:timg='http://www.onvif.org/ver20/imaging/wsdl' xmlns:tev='http://www.onvif.org/ver10/events/wsdl' xmlns:tptz='http://www.onvif.org/ver20/ptz/wsdl' xmlns:tan='http://www.onvif.org/ver20/analytics/wsdl' xmlns:tst='http://www.onvif.org/ver10/storage/wsdl' xmlns:ter='http://www.onvif.org/ver10/error' xmlns:dn='http://www.onvif.org/ver10/network/wsdl' xmlns:tns1='http://www.onvif.org/ver10/topics' xmlns:tmd='http://www.onvif.org/ver10/deviceIO/wsdl' xmlns:wsdl='http://schemas.xmlsoap.org/wsdl' xmlns:wsoap12='http://schemas.xmlsoap.org/wsdl/soap12' xmlns:http='http://schemas.xmlsoap.org/wsdl/http' xmlns:d='http://schemas.xmlsoap.org/ws/2005/04/discovery' xmlns:wsadis='http://schemas.xmlsoap.org/ws/2004/08/addressing' xmlns:wsnt='http://docs.oasis-open.org/wsn/b-2' xmlns:wsa='http://www.w3.org/2005/08/addressing' xmlns:wstop='http://docs.oasis-open.org/wsn/t-1' xmlns:wsrf-bf='http://docs.oasis-open.org/wsrf/bf-2' xmlns:wsntw='http://docs.oasis-open.org/wsn/bw-2' xmlns:wsrf-rw='http://docs.oasis-open.org/wsrf/rw-2' xmlns:wsaw='http://www.w3.org/2006/05/addressing/wsdl' xmlns:wsrf-r='http://docs.oasis-open.org/wsrf/r-2' xmlns:trc='http://www.onvif.org/ver10/recording/wsdl' xmlns:tse='http://www.onvif.org/ver10/search/wsdl' xmlns:trp='http://www.onvif.org/ver10/replay/wsdl' xmlns:tnshik='http://www.hikvision.com/2011/event/topics' xmlns:hikwsd='http://www.onvifext.com/onvif/ext/ver10/wsdl' xmlns:hikxsd='http://www.onvifext.com/onvif/ext/ver10/schema' xmlns:tas='http://www.onvif.org/ver10/advancedsecurity/wsdl' xmlns:tr2='http://www.onvif.org/ver20/media/wsdl' xmlns:axt='http://www.onvif.org/ver20/analytics'>
            <env:Body>
                <tds:GetSystemDateAndTimeResponse>
                    <tds:SystemDateAndTime>
                        <tt:DateTimeType>NTP</tt:DateTimeType>
                        <tt:DaylightSavings>false</tt:DaylightSavings>
                        <tt:TimeZone>
                            <tt:TZ>CST+3:00:00</tt:TZ>
                        </tt:TimeZone>
                        <tt:UTCDateTime>
                            <tt:Time>
                                <tt:Hour>18</tt:Hour>
                                <tt:Minute>49</tt:Minute>
                                <tt:Second>55</tt:Second>
                            </tt:Time>
                            <tt:Date>
                                <tt:Year>2023</tt:Year>
                                <tt:Month>12</tt:Month>
                                <tt:Day>1</tt:Day>
                            </tt:Date>
                        </tt:UTCDateTime>
                        <tt:LocalDateTime>
                            <tt:Time>
                                <tt:Hour>15</tt:Hour>
                                <tt:Minute>49</tt:Minute>
                                <tt:Second>55</tt:Second>
                            </tt:Time>
                            <tt:Date>
                                <tt:Year>2023</tt:Year>
                                <tt:Month>12</tt:Month>
                                <tt:Day>1</tt:Day>
                            </tt:Date>
                        </tt:LocalDateTime>
                    </tds:SystemDateAndTime>
                </tds:GetSystemDateAndTimeResponse>
            </env:Body>
        </env:Envelope>
    "#;

/// Reply of the media service (`GetVideoSources`).
pub const VIDEO_SOURCES_RESPONSE: &'static str = r#"
        <?xml version='1.0' encoding='UTF-8'?>
        <env:Envelope>
        <env:Body>
        <trt:GetVideoSourcesResponse>
        <trt:VideoSources token='VideoSource_1'>
        <tt:Framerate>24</tt:Framerate>
        <tt:Resolution><tt:Width>3840</tt:Width>
        <tt:Height>2160</tt:Height>
        </tt:Resolution>
        <tt:Imaging><tt:BacklightCompensation><tt:Mode>OFF</tt:Mode>
        <tt:Level>0</tt:Level>
        </tt:BacklightCompensation>
        <tt:Brightness>50</tt:Brightness>
        <tt:ColorSaturation>50</tt:ColorSaturation>
        <tt:Contrast>50</tt:Contrast>
        <tt:Exposure><tt:Mode>AUTO</tt:Mode>
        <tt:Priority>LowNoise</tt:Priority>
        <tt:Window bottom='0' top='0' right='0' left='0'/>
        <tt:MinExposureTime>33</tt:MinExposureTime>
        <tt:MaxExposureTime>10000</tt:MaxExposureTime>
        <tt:MinGain>0</tt:MinGain>
        <tt:MaxGain>63</tt:MaxGain>
        <tt:MinIris>0</tt:MinIris>
        <tt:MaxIris>100</tt:MaxIris>
        <tt:ExposureTime>33333</tt:ExposureTime>
        <tt:Gain>0</tt:Gain>
        <tt:Iris>0</tt:Iris>
        </tt:Exposure>
        <tt:Focus><tt:AutoFocusMode>AUTO</tt:AutoFocusMode>
        <tt:DefaultSpeed>1</tt:DefaultSpeed>
        <tt:NearLimit>600</tt:NearLimit>
        <tt:FarLimit>0</tt:FarLimit>
        </tt:Focus>
        <tt:IrCutFilter>AUTO</tt:IrCutFilter>
        <tt:Sharpness>50</tt:Sharpness>
        <tt:WideDynamicRange><tt:Mode>OFF</tt:Mode>
        <tt:Level>50</tt:Level>
        </tt:WideDynamicRange>
        <tt:WhiteBalance><tt:Mode>AUTO</tt:Mode>
        <tt:CrGain>0</tt:CrGain>
        <tt:CbGain>0</tt:CbGain>
        </tt:WhiteBalance>
        </tt:Imaging>
        </trt:VideoSources>
        </trt:GetVideoSourcesResponse>
        </env:Body>
        </env:Envelope>"#;

/// Opening of the media2 reply, up to its first profile.
pub const PROFILES_RESPONSE_HEAD: &'static str = r#"
            <?xml version='1.0' encoding='UTF-8'?>
        <env:Envelope                                      ><env:Body><tr2:GetProfilesResponse>"#;

/// The `mainStream` profile.
pub const PROFILE_MAIN_STREAM: &'static str = r#"<tr2:Profiles token='Profile_1' fixed='true'><tr2:Name>mainStream</tr2:Name>
        <tr2:Configurations><tr2:VideoSource token='VideoSourceToken'><tt:Name>VideoSourceConfig</tt:Name>
        <tt:UseCount>3</tt:UseCount>
        <tt:SourceToken>VideoSource_1</tt:SourceToken>
        <tt:Bounds x='0' y='0' width='3840' height='2160'></tt:Bounds>
        </tr2:VideoSource>
        <tr2:AudioSource token='AudioSourceConfigToken'><tt:Name>AudioSourceConfig</tt:Name>
        <tt:UseCount>3</tt:UseCount>
        <tt:SourceToken>AudioSourceChannel</tt:SourceToken>
        </tr2:AudioSource>
        <tr2:VideoEncoder token='VideoEncoderToken_1' GovLength='50' Profile='High'><tt:Name>VideoEncoder_1</tt:Name>
        <tt:UseCount>1</tt:UseCount>
        <tt:Encoding>H264</tt:Encoding>
        <tt:Resolution><tt:Width>1920</tt:Width>
        <tt:Height>1080</tt:Height>
        </tt:Resolution>
        <tt:RateControl ConstantBitRate='false'><tt:FrameRateLimit>24.000000</tt:FrameRateLimit>
        <tt:BitrateLimit>12288</tt:BitrateLimit>
        </tt:RateControl>
        <tt:Multicast><tt:Address><tt:Type>IPv4</tt:Type>
        <tt:IPv4Address>0.0.0.0</tt:IPv4Address>
        </tt:Address>
        <tt:Port>8860</tt:Port>
        <tt:TTL>128</tt:TTL>
        <tt:AutoStart>false</tt:AutoStart>
        </tt:Multicast>
        <tt:Quality>3.000000</tt:Quality>
        </tr2:VideoEncoder>
        <tr2:AudioEncoder token='MainAudioEncoderToken'><tt:Name>AudioEncoderConfig</tt:Name>
        <tt:UseCount>3</tt:UseCount>
        <tt:Encoding>PCMU</tt:Encoding>
        <tt:Multicast><tt:Address><tt:Type>IPv4</tt:Type>
        <tt:IPv4Address>0.0.0.0</tt:IPv4Address>
        </tt:Address>
        <tt:Port>8862</tt:Port>
        <tt:TTL>128</tt:TTL>
        <tt:AutoStart>false</tt:AutoStart>
        </tt:Multicast>
        <tt:Bitrate>64</tt:Bitrate>
        <tt:SampleRate>8</tt:SampleRate>
        </tr2:AudioEncoder>
        <tr2:Analytics token='VideoAnalyticsToken'><tt:Name>VideoAnalyticsName</tt:Name>
        <tt:UseCount>3</tt:UseCount>
        <tt:AnalyticsEngineConfiguration><tt:AnalyticsModule Name='MyCellMotionModule' Type='tt:CellMotionEngine'><tt:Parameters><tt:SimpleItem Name='Sensitivity' Value='0'/>
        <tt:ElementItem Name='Layout'><tt:CellLayout Columns='22' Rows='15'><tt:Transformation><tt:Translate x='-1.000000' y='-1.000000'/>
        <tt:Scale x='0.090909' y='0.133333'/>
        </tt:Transformation>
        </tt:CellLayout>
        </tt:ElementItem>
        </tt:Parameters>
        </tt:AnalyticsModule>
        <tt:AnalyticsModule Name='MyTamperDetecModule' Type='hikxsd:TamperEngine'><tt:Parameters><tt:SimpleItem Name='Sensitivity' Value='0'/>
        <tt:ElementItem Name='Transformation'><tt:Transformation><tt:Translate x='-1.000000' y='-1.000000'/>
        <tt:Scale x='0.002841' y='0.004167'/>
        </tt:Transformation>
        </tt:ElementItem>
        <tt:ElementItem Name='Field'><tt:PolygonConfiguration><tt:Polygon><tt:Point x='0' y='0'/>
        <tt:Point x='0' y='480'/>
        <tt:Point x='704' y='480'/>
        <tt:Point x='704' y='0'/>
        </tt:Polygon>
        </tt:PolygonConfiguration>
        </tt:ElementItem>
        </tt:Parameters>
        </tt:AnalyticsModule>
        </tt:AnalyticsEngineConfiguration>
        <tt:RuleEngineConfiguration><tt:Rule Name='MyMotionDetectorRule' Type='tt:CellMotionDetector'><tt:Parameters><tt:SimpleItem Name='MinCount' Value='5'/>
        <tt:SimpleItem Name='AlarmOnDelay' Value='1000'/>
        <tt:SimpleItem Name='AlarmOffDelay' Value='1000'/>
        <tt:SimpleItem Name='ActiveCells' Value='1wA='/>
        </tt:Parameters>
        </tt:Rule>
        <tt:Rule Name='MyTamperDetectorRule' Type='hikxsd:TamperDetector'><tt:Parameters><tt:ElementItem Name='Field'><tt:PolygonConfiguration><tt:Polygon><tt:Point x='0' y='0'/>
        <tt:Point x='0' y='0'/>
        <tt:Point x='0' y='0'/>
        <tt:Point x='0' y='0'/>
        </tt:Polygon>
        </tt:PolygonConfiguration>
        </tt:ElementItem>
        </tt:Parameters>
        </tt:Rule>
        </tt:RuleEngineConfiguration>
        </tr2:Analytics>
        <tr2:PTZ token='PTZToken'><tt:Name>PTZ</tt:Name>
        <tt:UseCount>3</tt:UseCount>
        <tt:NodeToken>PTZNODETOKEN</tt:NodeToken>
        <tt:DefaultAbsolutePantTiltPositionSpace>http://www.onvif.org/ver10/tptz/PanTiltSpaces/PositionGenericSpace</tt:DefaultAbsolutePantTiltPositionSpace>
        <tt:DefaultAbsoluteZoomPositionSpace>http://www.onvif.org/ver10/tptz/ZoomSpaces/PositionGenericSpace</tt:DefaultAbsoluteZoomPositionSpace>
        <tt:DefaultRelativePanTiltTranslationSpace>http://www.onvif.org/ver10/tptz/PanTiltSpaces/TranslationGenericSpace</tt:DefaultRelativePanTiltTranslationSpace>
        <tt:DefaultRelativeZoomTranslationSpace>http://www.onvif.org/ver10/tptz/ZoomSpaces/TranslationGenericSpace</tt:DefaultRelativeZoomTranslationSpace>
        <tt:DefaultContinuousPanTiltVelocitySpace>http://www.onvif.org/ver10/tptz/PanTiltSpaces/VelocityGenericSpace</tt:DefaultContinuousPanTiltVelocitySpace>
        <tt:DefaultContinuousZoomVelocitySpace>http://www.onvif.org/ver10/tptz/ZoomSpaces/VelocityGenericSpace</tt:DefaultContinuousZoomVelocitySpace>
        <tt:DefaultPTZSpeed><tt:PanTilt x='0.100000' y='0.100000' space='http://www.onvif.org/ver10/tptz/PanTiltSpaces/GenericSpeedSpace'/>
        <tt:Zoom x='1.000000' space='http://www.onvif.org/ver10/tptz/ZoomSpaces/ZoomGenericSpeedSpace'/>
        </tt:DefaultPTZSpeed>
        <tt:DefaultPTZTimeout>PT300S</tt:DefaultPTZTimeout>
        <tt:PanTiltLimits><tt:Range><tt:URI>http://www.onvif.org/ver10/tptz/PanTiltSpaces/PositionGenericSpace</tt:URI>
        <tt:XRange><tt:Min>-1.000000</tt:Min>
        <tt:Max>1.000000</tt:Max>
        </tt:XRange>
        <tt:YRange><tt:Min>-1.000000</tt:Min>
        <tt:Max>1.000000</tt:Max>
        </tt:YRange>
        </tt:Range>
        </tt:PanTiltLimits>
        <tt:ZoomLimits><tt:Range><tt:URI>http://www.onvif.org/ver10/tptz/ZoomSpaces/PositionGenericSpace</tt:URI>
        <tt:XRange><tt:Min>0.000000</tt:Min>
        <tt:Max>1.000000</tt:Max>
        </tt:XRange>
        </tt:Range>
        </tt:ZoomLimits>
        </tr2:PTZ>
        <tr2:AudioOutput token='AudioOutputConfigToken'><tt:Name>AudioOutputConfigName</tt:Name>
        <tt:UseCount>3</tt:UseCount>
        <tt:OutputToken>AudioOutputToken</tt:OutputToken>
        <tt:SendPrimacy>www.onvif.org/ver20/HalfDuplex/Auto</tt:SendPrimacy>
        <tt:OutputLevel>100</tt:OutputLevel>
        </tr2:AudioOutput>
        <tr2:AudioDecoder token='AudioDecoderConfigToken'><tt:Name>AudioDecoderConfig</tt:Name>
        <tt:UseCount>3</tt:UseCount>
        </tr2:AudioDecoder>
        </tr2:Configurations>
        </tr2:Profiles>
        "#;

/// The `subStream` profile.
pub const PROFILE_SUB_STREAM: &'static str = r#"<tr2:Profiles token='Profile_2' fixed='true'><tr2:Name>subStream</tr2:Name>
        <tr2:Configurations><tr2:VideoSource token='VideoSourceToken'><tt:Name>VideoSourceConfig</tt:Name>
        <tt:UseCount>3</tt:UseCount>
        <tt:SourceToken>VideoSource_1</tt:SourceToken>
        <tt:Bounds x='0' y='0' width='3840' height='2160'></tt:Bounds>
        </tr2:VideoSource>
        <tr2:AudioSource token='AudioSourceConfigToken'><tt:Name>AudioSourceConfig</tt:Name>
        <tt:UseCount>3</tt:UseCount>
        <tt:SourceToken>AudioSourceChannel</tt:SourceToken>
        </tr2:AudioSource>
        <tr2:VideoEncoder token='VideoEncoderToken_2' GovLength='50'><tt:Name>VideoEncoder_2</tt:Name>
        <tt:UseCount>1</tt:UseCount>
        <tt:Encoding>JPEG</tt:Encoding>
        <tt:Resolution><tt:Width>640</tt:Width>
        <tt:Height>480</tt:Height>
        </tt:Resolution>
        <tt:RateControl ConstantBitRate='false'><tt:FrameRateLimit>24.000000</tt:FrameRateLimit>
        <tt:BitrateLimit>1024</tt:BitrateLimit>
        </tt:RateControl>
        <tt:Multicast><tt:Address><tt:Type>IPv4</tt:Type>
        <tt:IPv4Address>0.0.0.0</tt:IPv4Address>
        </tt:Address>
        <tt:Port>8866</tt:Port>
        <tt:TTL>128</tt:TTL>
        <tt:AutoStart>false</tt:AutoStart>
        </tt:Multicast>
        <tt:Quality>3.000000</tt:Quality>
        </tr2:VideoEncoder>
        <tr2:AudioEncoder token='MainAudioEncoderToken'><tt:Name>AudioEncoderConfig</tt:Name>
        <tt:UseCount>3</tt:UseCount>
        <tt:Encoding>PCMU</tt:Encoding>
        <tt:Multicast><tt:Address><tt:Type>IPv4</tt:Type>
        <tt:IPv4Address>0.0.0.0</tt:IPv4Address>
        </tt:Address>
        <tt:Port>8862</tt:Port>
        <tt:TTL>128</tt:TTL>
        <tt:AutoStart>false</tt:AutoStart>
        </tt:Multicast>
        <tt:Bitrate>64</tt:Bitrate>
        <tt:SampleRate>8</tt:SampleRate>
        </tr2:AudioEncoder>
        <tr2:Analytics token='VideoAnalyticsToken'><tt:Name>VideoAnalyticsName</tt:Name>
        <tt:UseCount>3</tt:UseCount>
        <tt:AnalyticsEngineConfiguration><tt:AnalyticsModule Name='MyCellMotionModule' Type='tt:CellMotionEngine'><tt:Parameters><tt:SimpleItem Name='Sensitivity' Value='0'/>
        <tt:ElementItem Name='Layout'><tt:CellLayout Columns='22' Rows='15'><tt:Transformation><tt:Translate x='-1.000000' y='-1.000000'/>
        <tt:Scale x='0.090909' y='0.133333'/>
        </tt:Transformation>
        </tt:CellLayout>
        </tt:ElementItem>
        </tt:Parameters>
        </tt:AnalyticsModule>
        <tt:AnalyticsModule Name='MyTamperDetecModule' Type='hikxsd:TamperEngine'><tt:Parameters><tt:SimpleItem Name='Sensitivity' Value='0'/>
        <tt:ElementItem Name='Transformation'><tt:Transformation><tt:Translate x='-1.000000' y='-1.000000'/>
        <tt:Scale x='0.002841' y='0.004167'/>
        </tt:Transformation>
        </tt:ElementItem>
        <tt:ElementItem Name='Field'><tt:PolygonConfiguration><tt:Polygon><tt:Point x='0' y='0'/>
        <tt:Point x='0' y='480'/>
        <tt:Point x='704' y='480'/>
        <tt:Point x='704' y='0'/>
        </tt:Polygon>
        </tt:PolygonConfiguration>
        </tt:ElementItem>
        </tt:Parameters>
        </tt:AnalyticsModule>
        </tt:AnalyticsEngineConfiguration>
        <tt:RuleEngineConfiguration><tt:Rule Name='MyMotionDetectorRule' Type='tt:CellMotionDetector'><tt:Parameters><tt:SimpleItem Name='MinCount' Value='5'/>
        <tt:SimpleItem Name='AlarmOnDelay' Value='1000'/>
        <tt:SimpleItem Name='AlarmOffDelay' Value='1000'/>
        <tt:SimpleItem Name='ActiveCells' Value='1wA='/>
        </tt:Parameters>
        </tt:Rule>
        <tt:Rule Name='MyTamperDetectorRule' Type='hikxsd:TamperDetector'><tt:Parameters><tt:ElementItem Name='Field'><tt:PolygonConfiguration><tt:Polygon><tt:Point x='0' y='0'/>
        <tt:Point x='0' y='0'/>
        <tt:Point x='0' y='0'/>
        <tt:Point x='0' y='0'/>
        </tt:Polygon>
        </tt:PolygonConfiguration>
        </tt:ElementItem>
        </tt:Parameters>
        </tt:Rule>
        </tt:RuleEngineConfiguration>
        </tr2:Analytics>
        <tr2:PTZ token='PTZToken'><tt:Name>PTZ</tt:Name>
        <tt:UseCount>3</tt:UseCount>
        <tt:NodeToken>PTZNODETOKEN</tt:NodeToken>
        <tt:DefaultAbsolutePantTiltPositionSpace>http://www.onvif.org/ver10/tptz/PanTiltSpaces/PositionGenericSpace</tt:DefaultAbsolutePantTiltPositionSpace>
        <tt:DefaultAbsoluteZoomPositionSpace>http://www.onvif.org/ver10/tptz/ZoomSpaces/PositionGenericSpace</tt:DefaultAbsoluteZoomPositionSpace>
        <tt:DefaultRelativePanTiltTranslationSpace>http://www.onvif.org/ver10/tptz/PanTiltSpaces/TranslationGenericSpace</tt:DefaultRelativePanTiltTranslationSpace>
        <tt:DefaultRelativeZoomTranslationSpace>http://www.onvif.org/ver10/tptz/ZoomSpaces/TranslationGenericSpace</tt:DefaultRelativeZoomTranslationSpace>
        <tt:DefaultContinuousPanTiltVelocitySpace>http://www.onvif.org/ver10/tptz/PanTiltSpaces/VelocityGenericSpace</tt:DefaultContinuousPanTiltVelocitySpace>
        <tt:DefaultContinuousZoomVelocitySpace>http://www.onvif.org/ver10/tptz/ZoomSpaces/VelocityGenericSpace</tt:DefaultContinuousZoomVelocitySpace>
        <tt:DefaultPTZSpeed><tt:PanTilt x='0.100000' y='0.100000' space='http://www.onvif.org/ver10/tptz/PanTiltSpaces/GenericSpeedSpace'/>
        <tt:Zoom x='1.000000' space='http://www.onvif.org/ver10/tptz/ZoomSpaces/ZoomGenericSpeedSpace'/>
        </tt:DefaultPTZSpeed>
        <tt:DefaultPTZTimeout>PT300S</tt:DefaultPTZTimeout>
        <tt:PanTiltLimits><tt:Range><tt:URI>http://www.onvif.org/ver10/tptz/PanTiltSpaces/PositionGenericSpace</tt:URI>
        <tt:XRange><tt:Min>-1.000000</tt:Min>
        <tt:Max>1.000000</tt:Max>
        </tt:XRange>
        <tt:YRange><tt:Min>-1.000000</tt:Min>
        <tt:Max>1.000000</tt:Max>
        </tt:YRange>
        </tt:Range>
        </tt:PanTiltLimits>
        <tt:ZoomLimits><tt:Range><tt:URI>http://www.onvif.org/ver10/tptz/ZoomSpaces/PositionGenericSpace</tt:URI>
        <tt:XRange><tt:Min>0.000000</tt:Min>
        <tt:Max>1.000000</tt:Max>
        </tt:XRange>
        </tt:Range>
        </tt:ZoomLimits>
        </tr2:PTZ>
        <tr2:AudioOutput token='AudioOutputConfigToken'><tt:Name>AudioOutputConfigName</tt:Name>
        <tt:UseCount>3</tt:UseCount>
        <tt:OutputToken>AudioOutputToken</tt:OutputToken>
        <tt:SendPrimacy>www.onvif.org/ver20/HalfDuplex/Auto</tt:SendPrimacy>
        <tt:OutputLevel>100</tt:OutputLevel>
        </tr2:AudioOutput>
        <tr2:AudioDecoder token='AudioDecoderConfigToken'><tt:Name>AudioDecoderConfig</tt:Name>
        <tt:UseCount>3</tt:UseCount>
        </tr2:AudioDecoder>
        </tr2:Configurations>
        </tr2:Profiles>
        "#;

/// The `thirdStream` profile.
pub const PROFILE_THIRD_STREAM: &'static str = r#"<tr2:Profiles token='Profile_3' fixed='true'><tr2:Name>thirdStream</tr2:Name>
        <tr2:Configurations><tr2:VideoSource token='VideoSourceToken'><tt:Name>VideoSourceConfig</tt:Name>
        <tt:UseCount>3</tt:UseCount>
        <tt:SourceToken>VideoSource_1</tt:SourceToken>
        <tt:Bounds x='0' y='0' width='3840' height='2160'></tt:Bounds>
        </tr2:VideoSource>
        <tr2:AudioSource token='AudioSourceConfigToken'><tt:Name>AudioSourceConfig</tt:Name>
        <tt:UseCount>3</tt:UseCount>
        <tt:SourceToken>AudioSourceChannel</tt:SourceToken>
        </tr2:AudioSource>
        <tr2:VideoEncoder token='VideoEncoderToken_3' GovLength='50' Profile='High'><tt:Name>VideoEncoder_3</tt:Name>
        <tt:UseCount>1</tt:UseCount>
        <tt:Encoding>H264</tt:Encoding>
        <tt:Resolution><tt:Width>1920</tt:Width>
        <tt:Height>1080</tt:Height>
        </tt:Resolution>
        <tt:RateControl ConstantBitRate='false'><tt:FrameRateLimit>24.000000</tt:FrameRateLimit>
        <tt:BitrateLimit>1024</tt:BitrateLimit>
        </tt:RateControl>
        <tt:Multicast><tt:Address><tt:Type>IPv4</tt:Type>
        <tt:IPv4Address>0.0.0.0</tt:IPv4Address>
        </tt:Address>
        <tt:Port>8872</tt:Port>
        <tt:TTL>128</tt:TTL>
        <tt:AutoStart>false</tt:AutoStart>
        </tt:Multicast>
        <tt:Quality>3.000000</tt:Quality>
        </tr2:VideoEncoder>
        <tr2:AudioEncoder token='MainAudioEncoderToken'><tt:Name>AudioEncoderConfig</tt:Name>
        <tt:UseCount>3</tt:UseCount>
        <tt:Encoding>PCMU</tt:Encoding>
        <tt:Multicast><tt:Address><tt:Type>IPv4</tt:Type>
        <tt:IPv4Address>0.0.0.0</tt:IPv4Address>
        </tt:Address>
        <tt:Port>8862</tt:Port>
        <tt:TTL>128</tt:TTL>
        <tt:AutoStart>false</tt:AutoStart>
        </tt:Multicast>
        <tt:Bitrate>64</tt:Bitrate>
        <tt:SampleRate>8</tt:SampleRate>
        </tr2:AudioEncoder>
        <tr2:Analytics token='VideoAnalyticsToken'><tt:Name>VideoAnalyticsName</tt:Name>
        <tt:UseCount>3</tt:UseCount>
        <tt:AnalyticsEngineConfiguration><tt:AnalyticsModule Name='MyCellMotionModule' Type='tt:CellMotionEngine'><tt:Parameters><tt:SimpleItem Name='Sensitivity' Value='0'/>
        <tt:ElementItem Name='Layout'><tt:CellLayout Columns='22' Rows='15'><tt:Transformation><tt:Translate x='-1.000000' y='-1.000000'/>
        <tt:Scale x='0.090909' y='0.133333'/>
        </tt:Transformation>
        </tt:CellLayout>
        </tt:ElementItem>
        </tt:Parameters>
        </tt:AnalyticsModule>
        <tt:AnalyticsModule Name='MyTamperDetecModule' Type='hikxsd:TamperEngine'><tt:Parameters><tt:SimpleItem Name='Sensitivity' Value='0'/>
        <tt:ElementItem Name='Transformation'><tt:Transformation><tt:Translate x='-1.000000' y='-1.000000'/>
        <tt:Scale x='0.002841' y='0.004167'/>
        </tt:Transformation>
        </tt:ElementItem>
        <tt:ElementItem Name='Field'><tt:PolygonConfiguration><tt:Polygon><tt:Point x='0' y='0'/>
        <tt:Point x='0' y='480'/>
        <tt:Point x='704' y='480'/>
        <tt:Point x='704' y='0'/>
        </tt:Polygon>
        </tt:PolygonConfiguration>
        </tt:ElementItem>
        </tt:Parameters>
        </tt:AnalyticsModule>
        </tt:AnalyticsEngineConfiguration>
        <tt:RuleEngineConfiguration><tt:Rule Name='MyMotionDetectorRule' Type='tt:CellMotionDetector'><tt:Parameters><tt:SimpleItem Name='MinCount' Value='5'/>
        <tt:SimpleItem Name='AlarmOnDelay' Value='1000'/>
        <tt:SimpleItem Name='AlarmOffDelay' Value='1000'/>
        <tt:SimpleItem Name='ActiveCells' Value='1wA='/>
        </tt:Parameters>
        </tt:Rule>
        <tt:Rule Name='MyTamperDetectorRule' Type='hikxsd:TamperDetector'><tt:Parameters><tt:ElementItem Name='Field'><tt:PolygonConfiguration><tt:Polygon><tt:Point x='0' y='0'/>
        <tt:Point x='0' y='0'/>
        <tt:Point x='0' y='0'/>
        <tt:Point x='0' y='0'/>
        </tt:Polygon>
        </tt:PolygonConfiguration>
        </tt:ElementItem>
        </tt:Parameters>
        </tt:Rule>
        </tt:RuleEngineConfiguration>
        </tr2:Analytics>
        <tr2:PTZ token='PTZToken'><tt:Name>PTZ</tt:Name>
        <tt:UseCount>3</tt:UseCount>
        <tt:NodeToken>PTZNODETOKEN</tt:NodeToken>
        <tt:DefaultAbsolutePantTiltPositionSpace>http://www.onvif.org/ver10/tptz/PanTiltSpaces/PositionGenericSpace</tt:DefaultAbsolutePantTiltPositionSpace>
        <tt:DefaultAbsoluteZoomPositionSpace>http://www.onvif.org/ver10/tptz/ZoomSpaces/PositionGenericSpace</tt:DefaultAbsoluteZoomPositionSpace>
        <tt:DefaultRelativePanTiltTranslationSpace>http://www.onvif.org/ver10/tptz/PanTiltSpaces/TranslationGenericSpace</tt:DefaultRelativePanTiltTranslationSpace>
        <tt:DefaultRelativeZoomTranslationSpace>http://www.onvif.org/ver10/tptz/ZoomSpaces/TranslationGenericSpace</tt:DefaultRelativeZoomTranslationSpace>
        <tt:DefaultContinuousPanTiltVelocitySpace>http://www.onvif.org/ver10/tptz/PanTiltSpaces/VelocityGenericSpace</tt:DefaultContinuousPanTiltVelocitySpace>
        <tt:DefaultContinuousZoomVelocitySpace>http://www.onvif.org/ver10/tptz/ZoomSpaces/VelocityGenericSpace</tt:DefaultContinuousZoomVelocitySpace>
        <tt:DefaultPTZSpeed><tt:PanTilt x='0.100000' y='0.100000' space='http://www.onvif.org/ver10/tptz/PanTiltSpaces/GenericSpeedSpace'/>
        <tt:Zoom x='1.000000' space='http://www.onvif.org/ver10/tptz/ZoomSpaces/ZoomGenericSpeedSpace'/>
        </tt:DefaultPTZSpeed>
        <tt:DefaultPTZTimeout>PT300S</tt:DefaultPTZTimeout>
        <tt:PanTiltLimits><tt:Range><tt:URI>http://www.onvif.org/ver10/tptz/PanTiltSpaces/PositionGenericSpace</tt:URI>
        <tt:XRange><tt:Min>-1.000000</tt:Min>
        <tt:Max>1.000000</tt:Max>
        </tt:XRange>
        <tt:YRange><tt:Min>-1.000000</tt:Min>
        <tt:Max>1.000000</tt:Max>
        </tt:YRange>
        </tt:Range>
        </tt:PanTiltLimits>
        <tt:ZoomLimits><tt:Range><tt:URI>http://www.onvif.org/ver10/tptz/ZoomSpaces/PositionGenericSpace</tt:URI>
        <tt:XRange><tt:Min>0.000000</tt:Min>
        <tt:Max>1.000000</tt:Max>
        </tt:XRange>
        </tt:Range>
        </tt:ZoomLimits>
        </tr2:PTZ>
        <tr2:AudioOutput token='AudioOutputConfigToken'><tt:Name>AudioOutputConfigName</tt:Name>
        <tt:UseCount>3</tt:UseCount>
        <tt:OutputToken>AudioOutputToken</tt:OutputToken>
        <tt:SendPrimacy>www.onvif.org/ver20/HalfDuplex/Auto</tt:SendPrimacy>
        <tt:OutputLevel>100</tt:OutputLevel>
        </tr2:AudioOutput>
        <tr2:AudioDecoder token='AudioDecoderConfigToken'><tt:Name>AudioDecoderConfig</tt:Name>
        <tt:UseCount>3</tt:UseCount>
        </tr2:AudioDecoder>
        </tr2:Configurations>
        </tr2:Profiles>
"#;

/// Closing of the media2 reply.
pub const PROFILES_RESPONSE_TAIL: &'static str = r#"        </tr2:GetProfilesResponse>
        </env:Body>
        </env:Envelope>
    "#;

/// Reply of the media2 service (`GetProfiles`): three profiles.
pub open spec fn profiles_response() -> Seq<char> {
    PROFILES_RESPONSE_HEAD@ + PROFILE_MAIN_STREAM@ + PROFILE_SUB_STREAM@ + PROFILE_THIRD_STREAM@
        + PROFILES_RESPONSE_TAIL@
}

/// Reply of the PTZ service to every request but `GetPresets`.
pub const PTZ_SUCCESS_RESPONSE: &'static str =
    "<?xml version='1.0' encoding='UTF-8'?><env:Envelope><env:Body></env:Body></env:Envelope>";

pub fn get_services_response() -> (s: String)
    ensures
        s@ == SERVICES_RESPONSE@,
{
    String::from_str(SERVICES_RESPONSE)
}

pub fn get_system_date_and_time_response() -> (s: String)
    ensures
        s@ == SYSTEM_DATE_AND_TIME_RESPONSE@,
{
    String::from_str(SYSTEM_DATE_AND_TIME_RESPONSE)
}

pub fn get_video_sources_response() -> (s: String)
    ensures
        s@ == VIDEO_SOURCES_RESPONSE@,
{
    String::from_str(VIDEO_SOURCES_RESPONSE)
}

pub fn get_profiles_response() -> (s: String)
    ensures
        s@ == profiles_response(),
{
    let mut s = String::from_str(PROFILES_RESPONSE_HEAD);
    s.append(PROFILE_MAIN_STREAM);
    s.append(PROFILE_SUB_STREAM);
    s.append(PROFILE_THIRD_STREAM);
    s.append(PROFILES_RESPONSE_TAIL);
    s
}

pub fn default_ptz_success_response() -> (s: String)
    ensures
        s@ == PTZ_SUCCESS_RESPONSE@,
{
    String::from_str(PTZ_SUCCESS_RESPONSE)
}

/// The operation of a SOAP request: the local name of the first element child
/// of the first element named `Body`, in document order.
pub open spec fn onvif_operation(nodes: Seq<XmlNodeData>) -> Option<Seq<char>> {
    match find_descendant(nodes, 0, "Body"@) {
        Some(body) => match first_element_child(nodes, body) {
            Some(op) => Some(xml_name(nodes[op])),
            None => None,
        },
        None => None,
    }
}

/// The operation of a request text; `None` where the text is no XML document.
pub open spec fn onvif_operation_of(text: Seq<char>) -> Option<Seq<char>> {
    match xml_parse(text) {
        Some(nodes) => onvif_operation(nodes),
        None => None,
    }
}

/// `opt.unwrap_or_default()` on a text.
pub open spec fn or_empty(opt: Option<Seq<char>>) -> Seq<char> {
    match opt {
        Some(t) => t,
        None => Seq::empty(),
    }
}

/// The operation of a parsed request.
pub fn onvif_operation_in(tree: &XmlTree) -> (res: Option<String>)
    ensures
        res.deep_view() == onvif_operation(tree@),
{
    let body_name = String::from_str("Body");
    match tree.find_descendant(0, &body_name) {
        Some(body) => match tree.first_element_child(body) {
            Some(op) => Some(tree.name_of(op)),
            None => None,
        },
        None => None,
    }
}

/// The operation of a SOAP request text; `None` where the text does not
/// parse or has no element under its `Body`.
pub fn detect_onvif_op(xml: &str) -> (res: Option<String>)
    ensures
        res.deep_view() == onvif_operation_of(xml@),
{
    match parse_xml(xml) {
        Some(tree) => onvif_operation_in(&tree),
        None => None,
    }
}

/// The device service's reply to an operation.
pub open spec fn response_for_action(action: Seq<char>) -> Seq<char> {
    if has_suffix(action, "GetSystemDateAndTime"@) {
        SYSTEM_DATE_AND_TIME_RESPONSE@
    } else if has_suffix(action, "GetServices"@) {
        SERVICES_RESPONSE@
    } else {
        Seq::empty()
    }
}

pub fn get_response_for_action(action: String) -> (s: String)
    ensures
        s@ == response_for_action(action@),
{
    if ends_with(action.as_str(), "GetSystemDateAndTime") {
        return get_system_date_and_time_response();
    }
    if ends_with(action.as_str(), "GetServices") {
        return get_services_response();
    }
    String::new()
}

/// What `String::from_utf8_lossy` makes of a byte sequence.
pub uninterp spec fn utf8_lossy(bytes: Seq<u8>) -> Seq<char>;

/// Calls `String::from_utf8_lossy`: the result is `utf8_lossy` of the bytes,
/// and, as its documentation says, the decoded text where the bytes are valid
/// UTF-8. What it puts in place of invalid sequences is left to the name.
#[verifier::external_body]
pub(crate) fn decode_utf8_lossy(bytes: &[u8]) -> (s: String)
    ensures
        s@ == utf8_lossy(bytes@),
        vstd::utf8::valid_utf8(bytes@) ==> s@ == vstd::utf8::decode_utf8(bytes@),
{
    String::from_utf8_lossy(bytes).into_owned()
}

/// The device service's reply to a request body.
pub fn device_server(body: &[u8]) -> (s: String)
    ensures
        s@ == response_for_action(or_empty(onvif_operation_of(utf8_lossy(body@)))),
{
    let xml = decode_utf8_lossy(body);
    let action = match detect_onvif_op(xml.as_str()) {
        Some(a) => a,
        None => String::new(),
    };
    get_response_for_action(action)
}

/// The operation of a request is the local name of the first element child
/// of the first element named `Body` in document order, whatever comes before
/// that `Body` (a SOAP `Header` with its security token, for one).
pub proof fn law_operation_is_first_child_of_first_body(nodes: Seq<XmlNodeData>, body: int, op: int)
    requires
        is_first_named(nodes, 0, "Body"@, body),
        is_first_element_child(nodes, body, op),
    ensures
        onvif_operation(nodes) == Some(xml_name(nodes[op])),
{
    law_find_descendant_finds_first_named(nodes, 0, "Body"@, body);
    law_first_element_child_finds_first(nodes, body, op);
}

/// A document without an element named `Body` names no operation.
pub proof fn law_no_body_no_operation(nodes: Seq<XmlNodeData>)
    requires
        nodes.len() > 0,
        forall|k: int|
            0 <= k < subtree_end(nodes, 0) ==> !(xml_is_element(#[trigger] nodes[k]) && xml_name(
                nodes[k],
            ) == "Body"@),
    ensures
        onvif_operation(nodes) is None,
{
    law_find_descendant_finds_nothing(nodes, 0, "Body"@);
}

/// The device service answers the date and time to operations whose name ends
/// with `GetSystemDateAndTime`, its services to those that end with
/// `GetServices`, and the empty text to every other operation (such as
/// `SetSystemDateAndTime`).
pub proof fn law_device_replies(action: Seq<char>)
    ensures
        has_suffix(action, "GetSystemDateAndTime"@) ==> response_for_action(action)
            == SYSTEM_DATE_AND_TIME_RESPONSE@,
        has_suffix(action, "GetServices"@) && !has_suffix(action, "GetSystemDateAndTime"@)
            ==> response_for_action(action) == SERVICES_RESPONSE@,
        !has_suffix(action, "GetSystemDateAndTime"@) && !has_suffix(action, "GetServices"@)
            ==> response_for_action(action) == Seq::<char>::empty(),
{
}

} // verus!
