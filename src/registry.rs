use vstd::prelude::*;

verus! {

/// How the payload of an element is interpreted.
#[derive(Clone, Copy, Debug, PartialEq, Eq, Structural)]
pub enum ElementKind {
    /// An identifier absent from the table: opaque bytes, never recursed into.
    Unknown,
    /// A container whose payload is a sequence of child elements.
    Master,
    UInt,
    SInt,
    Float,
    String,
    UTF8,
    Date,
    Binary,
}

/// The identifier of the EBML header element, whose four octets are also
/// the stream's signature.
pub const EBML_HEADER_ID: u64 = 0x1a45dfa3;

/// The kind that the schema gives to element `id`.
pub open spec fn kind_of(id: u64) -> ElementKind {
    match id {
        0xe7 | 0xab | 0xcc | 0xd7 | 0x83 | 0xb9 |
        0x88 | 0x9c | 0x9a | 0xb0 | 0xba | 0x9f |
        0xb3 | 0xf1 | 0xf7 | 0xa7 | 0x4286 | 0x42f7 |
        0x42f2 | 0x42f3 | 0x4287 | 0x4285 | 0x53ac | 0x73c5 |
        0x55aa | 0x56aa | 0x56bb | 0x53b8 | 0x53c0 | 0x5378 |
        0x2ad7b1 | 0x23e383 => ElementKind::UInt,
        0xfb | 0x75a2 => ElementKind::SInt,
        0xb5 | 0x4489 | 0x23314f => ElementKind::Float,
        0x4461 => ElementKind::Date,
        0x86 | 0x4282 | 0x22b59c => ElementKind::String,
        0x9b | 0x4d80 | 0x5741 | 0x536e | 0x258688 => ElementKind::UTF8,
        0xa3 | 0xa1 | 0xec | 0xbf | 0x53ab | 0x63a2 |
        0x73a4 => ElementKind::Binary,
        0x1a45dfa3 | 0x18538067 | 0x114d9b74 | 0x4dbb | 0x1549a966 | 0x1f43b675 |
        0xa0 | 0x8e | 0xe8 | 0x1654ae6b | 0xae | 0xe0 |
        0x7670 | 0xe1 | 0x6d80 | 0x6240 | 0x5035 | 0x47e7 |
        0x1c53bb6b | 0xbb | 0xb7 | 0x1043a770 | 0x45b9 | 0xb6 |
        0x80 | 0x1254c367 | 0x7373 | 0x63c0 | 0x67c8 | 0x1b538667 |
        0x7e5b | 0x7e7b => ElementKind::Master,
        _ => ElementKind::Unknown,
    }
}

/// Looks up the kind of element `id`; unlisted identifiers are `Unknown`.
pub fn element_kind(id: u64) -> (r: ElementKind)
    ensures
        r == kind_of(id),
{
    match id {
        0xe7 | 0xab | 0xcc | 0xd7 | 0x83 | 0xb9 |
        0x88 | 0x9c | 0x9a | 0xb0 | 0xba | 0x9f |
        0xb3 | 0xf1 | 0xf7 | 0xa7 | 0x4286 | 0x42f7 |
        0x42f2 | 0x42f3 | 0x4287 | 0x4285 | 0x53ac | 0x73c5 |
        0x55aa | 0x56aa | 0x56bb | 0x53b8 | 0x53c0 | 0x5378 |
        0x2ad7b1 | 0x23e383 => ElementKind::UInt,
        0xfb | 0x75a2 => ElementKind::SInt,
        0xb5 | 0x4489 | 0x23314f => ElementKind::Float,
        0x4461 => ElementKind::Date,
        0x86 | 0x4282 | 0x22b59c => ElementKind::String,
        0x9b | 0x4d80 | 0x5741 | 0x536e | 0x258688 => ElementKind::UTF8,
        0xa3 | 0xa1 | 0xec | 0xbf | 0x53ab | 0x63a2 |
        0x73a4 => ElementKind::Binary,
        0x1a45dfa3 | 0x18538067 | 0x114d9b74 | 0x4dbb | 0x1549a966 | 0x1f43b675 |
        0xa0 | 0x8e | 0xe8 | 0x1654ae6b | 0xae | 0xe0 |
        0x7670 | 0xe1 | 0x6d80 | 0x6240 | 0x5035 | 0x47e7 |
        0x1c53bb6b | 0xbb | 0xb7 | 0x1043a770 | 0x45b9 | 0xb6 |
        0x80 | 0x1254c367 | 0x7373 | 0x63c0 | 0x67c8 | 0x1b538667 |
        0x7e5b | 0x7e7b => ElementKind::Master,
        _ => ElementKind::Unknown,
    }
}

/// The diagnostic name of element `id`, where the table has one.
pub open spec fn name_of(id: u64) -> Option<Seq<char>> {
    match id {
        0x1a45dfa3 => Some("EBMLHeaderNode"@),
        0x18538067 => Some("SegmentNode"@),
        0x114d9b74 => Some("SeekHeadNode"@),
        0x4dbb => Some("SeekNode"@),
        0x1549a966 => Some("InfoNode"@),
        0x1f43b675 => Some("ClusterNode"@),
        0xa0 => Some("BlockGroupNode"@),
        0x8e => Some("SlicesNode"@),
        0x1654ae6b => Some("TracksNode"@),
        0xae => Some("TrackEntryNode"@),
        0xe0 => Some("VideoNode"@),
        0xe1 => Some("AudioNode"@),
        0x6d80 => Some("ContentEncodingsNode"@),
        0x6240 => Some("ContentEncodingNode"@),
        0x5035 => Some("ContentEncryptionNode"@),
        0x47e7 => Some("ContentEncAESSettingsNode"@),
        0x1c53bb6b => Some("CuesNode"@),
        0xbb => Some("CuePointNode"@),
        0xb7 => Some("CueTrackPositionsNode"@),
        0x1043a770 => Some("ChaptersNode"@),
        0x45b9 => Some("EditionEntryNode"@),
        0xb6 => Some("ChapterAtomNode"@),
        0x80 => Some("ChapterDisplayNode"@),
        0x1254c367 => Some("TagsNode"@),
        0x7373 => Some("TagNode"@),
        0x63c0 => Some("TargetsNode"@),
        0x67c8 => Some("SimpleTagNode"@),
        0x4286 => Some("EBMLVersion"@),
        0x42f7 => Some("EBMLReadVersion"@),
        0x42f2 => Some("EBMLMaxIDLength"@),
        0x42f3 => Some("EBMLMaxSizeLength"@),
        0x4282 => Some("DocType"@),
        0x4287 => Some("DocTypeVersion"@),
        0x4285 => Some("DocTypeReadVersion"@),
        0xbf => Some("CRC-32"@),
        0xec => Some("Void"@),
        0x1b538667 => Some("SignatureSlot"@),
        0x7e8a => Some("SignatureAlgo"@),
        0x7e9a => Some("SignatureHash"@),
        0x7ea5 => Some("SignaturePublicKey"@),
        0x7eb5 => Some("Signature"@),
        0x7e5b => Some("SignatureElements"@),
        0x7e7b => Some("SignatureElementList"@),
        0x6532 => Some("SignedElement"@),
        0x53ab => Some("SeekID"@),
        0x53ac => Some("SeekPosition"@),
        0x2ad7b1 => Some("TimestampScale"@),
        0x4489 => Some("Duration"@),
        0x4461 => Some("DateUTC"@),
        0x4d80 => Some("MuxingApp"@),
        0x5741 => Some("WritingApp"@),
        0xe7 => Some("Timestamp"@),
        0xab => Some("PrevSize"@),
        0xa3 => Some("SimpleBlock"@),
        0xa1 => Some("Block"@),
        0x9b => Some("BlockDuration"@),
        0xfb => Some("ReferenceBlock"@),
        0x75a2 => Some("DiscardPadding"@),
        0xcc => Some("LaceNumber"@),
        0xd7 => Some("TrackNumber"@),
        0x73c5 => Some("TrackUID"@),
        0x83 => Some("TrackType"@),
        0xb9 => Some("FlagEnabled"@),
        0x88 => Some("FlagDefault"@),
        0x55aa => Some("FlagForced"@),
        0x9c => Some("FlagLacing"@),
        0x23e383 => Some("DefaultDuration"@),
        0x536e => Some("Name"@),
        0x22b59c => Some("Language"@),
        0x86 => Some("CodecID"@),
        0x63a2 => Some("CodecPrivate"@),
        0x258688 => Some("CodecName"@),
        0x56aa => Some("CodecDelay"@),
        0x56bb => Some("SeekPreRoll"@),
        0x9a => Some("FlagInterlaced"@),
        0x53b8 => Some("StereoMode"@),
        0x53c0 => Some("AlphaMode"@),
        0xb0 => Some("PixelWidth"@),
        0xba => Some("PixelHeight"@),
        0x54aa => Some("PixelCropBottom"@),
        0x54bb => Some("PixelCropTop"@),
        0x54cc => Some("PixelCropLeft"@),
        0x54dd => Some("PixelCropRight"@),
        0x54b0 => Some("DisplayWidth"@),
        0x54ba => Some("DisplayHeight"@),
        0x54b2 => Some("DisplayUnit"@),
        0x54b3 => Some("AspectRatioType"@),
        0x7671 => Some("ProjectionType"@),
        0x7672 => Some("ProjectionPrivate"@),
        0x7673 => Some("ProjectionPoseYaw"@),
        0x7674 => Some("ProjectionPosePitch"@),
        0x7675 => Some("ProjectionPoseRoll"@),
        0xb5 => Some("SamplingFrequency"@),
        0x78b5 => Some("OutputSamplingFrequency"@),
        0x9f => Some("Channels"@),
        0x6264 => Some("BitDepth"@),
        0x5031 => Some("ContentEncodingOrder"@),
        0x5032 => Some("ContentEncodingScope"@),
        0x5033 => Some("ContentEncodingType"@),
        0x47e1 => Some("ContentEncAlgo"@),
        0x47e2 => Some("ContentEncKeyID"@),
        0x47e8 => Some("AESSettingsCipherMode"@),
        0xb3 => Some("CueTime"@),
        0xf7 => Some("CueTrack"@),
        0xf1 => Some("CueClusterPosition"@),
        0x5378 => Some("CueBlockNumber"@),
        0x73c4 => Some("ChapterUID"@),
        0x5654 => Some("ChapterStringUID"@),
        0x91 => Some("ChapterTimeStart"@),
        0x85 => Some("ChapString"@),
        0x437c => Some("ChapLanguage"@),
        0x68ca => Some("TargetTypeValue"@),
        0x63ca => Some("TargetType"@),
        0x63c5 => Some("TagTrackUID"@),
        0x45a3 => Some("TagName"@),
        0x447a => Some("TagLanguage"@),
        0x4484 => Some("TagDefault"@),
        0x4487 => Some("TagString"@),
        0x4485 => Some("TagBinary"@),
        0x23314f => Some("TrackTimestampScale"@),
        0xa7 => Some("Position"@),
        0x73a4 => Some("SegmentUID"@),
        _ => None,
    }
}

/// A registered identifier with its diagnostic name.
#[derive(Clone, Copy, Debug)]
pub struct NodeInfo {
    pub id: u64,
    pub name: &'static str,
}

/// Looks up the diagnostic name of element `id`.
pub fn get_node_info(id: u64) -> (r: Option<NodeInfo>)
    ensures
        match r {
            Some(info) => info.id == id && name_of(id) == Some(info.name@),
            None => name_of(id) is None,
        },
{
    match id {
        0x1a45dfa3 => Some(NodeInfo { id, name: "EBMLHeaderNode" }),
        0x18538067 => Some(NodeInfo { id, name: "SegmentNode" }),
        0x114d9b74 => Some(NodeInfo { id, name: "SeekHeadNode" }),
        0x4dbb => Some(NodeInfo { id, name: "SeekNode" }),
        0x1549a966 => Some(NodeInfo { id, name: "InfoNode" }),
        0x1f43b675 => Some(NodeInfo { id, name: "ClusterNode" }),
        0xa0 => Some(NodeInfo { id, name: "BlockGroupNode" }),
        0x8e => Some(NodeInfo { id, name: "SlicesNode" }),
        0x1654ae6b => Some(NodeInfo { id, name: "TracksNode" }),
        0xae => Some(NodeInfo { id, name: "TrackEntryNode" }),
        0xe0 => Some(NodeInfo { id, name: "VideoNode" }),
        0xe1 => Some(NodeInfo { id, name: "AudioNode" }),
        0x6d80 => Some(NodeInfo { id, name: "ContentEncodingsNode" }),
        0x6240 => Some(NodeInfo { id, name: "ContentEncodingNode" }),
        0x5035 => Some(NodeInfo { id, name: "ContentEncryptionNode" }),
        0x47e7 => Some(NodeInfo { id, name: "ContentEncAESSettingsNode" }),
        0x1c53bb6b => Some(NodeInfo { id, name: "CuesNode" }),
        0xbb => Some(NodeInfo { id, name: "CuePointNode" }),
        0xb7 => Some(NodeInfo { id, name: "CueTrackPositionsNode" }),
        0x1043a770 => Some(NodeInfo { id, name: "ChaptersNode" }),
        0x45b9 => Some(NodeInfo { id, name: "EditionEntryNode" }),
        0xb6 => Some(NodeInfo { id, name: "ChapterAtomNode" }),
        0x80 => Some(NodeInfo { id, name: "ChapterDisplayNode" }),
        0x1254c367 => Some(NodeInfo { id, name: "TagsNode" }),
        0x7373 => Some(NodeInfo { id, name: "TagNode" }),
        0x63c0 => Some(NodeInfo { id, name: "TargetsNode" }),
        0x67c8 => Some(NodeInfo { id, name: "SimpleTagNode" }),
        0x4286 => Some(NodeInfo { id, name: "EBMLVersion" }),
        0x42f7 => Some(NodeInfo { id, name: "EBMLReadVersion" }),
        0x42f2 => Some(NodeInfo { id, name: "EBMLMaxIDLength" }),
        0x42f3 => Some(NodeInfo { id, name: "EBMLMaxSizeLength" }),
        0x4282 => Some(NodeInfo { id, name: "DocType" }),
        0x4287 => Some(NodeInfo { id, name: "DocTypeVersion" }),
        0x4285 => Some(NodeInfo { id, name: "DocTypeReadVersion" }),
        0xbf => Some(NodeInfo { id, name: "CRC-32" }),
        0xec => Some(NodeInfo { id, name: "Void" }),
        0x1b538667 => Some(NodeInfo { id, name: "SignatureSlot" }),
        0x7e8a => Some(NodeInfo { id, name: "SignatureAlgo" }),
        0x7e9a => Some(NodeInfo { id, name: "SignatureHash" }),
        0x7ea5 => Some(NodeInfo { id, name: "SignaturePublicKey" }),
        0x7eb5 => Some(NodeInfo { id, name: "Signature" }),
        0x7e5b => Some(NodeInfo { id, name: "SignatureElements" }),
        0x7e7b => Some(NodeInfo { id, name: "SignatureElementList" }),
        0x6532 => Some(NodeInfo { id, name: "SignedElement" }),
        0x53ab => Some(NodeInfo { id, name: "SeekID" }),
        0x53ac => Some(NodeInfo { id, name: "SeekPosition" }),
        0x2ad7b1 => Some(NodeInfo { id, name: "TimestampScale" }),
        0x4489 => Some(NodeInfo { id, name: "Duration" }),
        0x4461 => Some(NodeInfo { id, name: "DateUTC" }),
        0x4d80 => Some(NodeInfo { id, name: "MuxingApp" }),
        0x5741 => Some(NodeInfo { id, name: "WritingApp" }),
        0xe7 => Some(NodeInfo { id, name: "Timestamp" }),
        0xab => Some(NodeInfo { id, name: "PrevSize" }),
        0xa3 => Some(NodeInfo { id, name: "SimpleBlock" }),
        0xa1 => Some(NodeInfo { id, name: "Block" }),
        0x9b => Some(NodeInfo { id, name: "BlockDuration" }),
        0xfb => Some(NodeInfo { id, name: "ReferenceBlock" }),
        0x75a2 => Some(NodeInfo { id, name: "DiscardPadding" }),
        0xcc => Some(NodeInfo { id, name: "LaceNumber" }),
        0xd7 => Some(NodeInfo { id, name: "TrackNumber" }),
        0x73c5 => Some(NodeInfo { id, name: "TrackUID" }),
        0x83 => Some(NodeInfo { id, name: "TrackType" }),
        0xb9 => Some(NodeInfo { id, name: "FlagEnabled" }),
        0x88 => Some(NodeInfo { id, name: "FlagDefault" }),
        0x55aa => Some(NodeInfo { id, name: "FlagForced" }),
        0x9c => Some(NodeInfo { id, name: "FlagLacing" }),
        0x23e383 => Some(NodeInfo { id, name: "DefaultDuration" }),
        0x536e => Some(NodeInfo { id, name: "Name" }),
        0x22b59c => Some(NodeInfo { id, name: "Language" }),
        0x86 => Some(NodeInfo { id, name: "CodecID" }),
        0x63a2 => Some(NodeInfo { id, name: "CodecPrivate" }),
        0x258688 => Some(NodeInfo { id, name: "CodecName" }),
        0x56aa => Some(NodeInfo { id, name: "CodecDelay" }),
        0x56bb => Some(NodeInfo { id, name: "SeekPreRoll" }),
        0x9a => Some(NodeInfo { id, name: "FlagInterlaced" }),
        0x53b8 => Some(NodeInfo { id, name: "StereoMode" }),
        0x53c0 => Some(NodeInfo { id, name: "AlphaMode" }),
        0xb0 => Some(NodeInfo { id, name: "PixelWidth" }),
        0xba => Some(NodeInfo { id, name: "PixelHeight" }),
        0x54aa => Some(NodeInfo { id, name: "PixelCropBottom" }),
        0x54bb => Some(NodeInfo { id, name: "PixelCropTop" }),
        0x54cc => Some(NodeInfo { id, name: "PixelCropLeft" }),
        0x54dd => Some(NodeInfo { id, name: "PixelCropRight" }),
        0x54b0 => Some(NodeInfo { id, name: "DisplayWidth" }),
        0x54ba => Some(NodeInfo { id, name: "DisplayHeight" }),
        0x54b2 => Some(NodeInfo { id, name: "DisplayUnit" }),
        0x54b3 => Some(NodeInfo { id, name: "AspectRatioType" }),
        0x7671 => Some(NodeInfo { id, name: "ProjectionType" }),
        0x7672 => Some(NodeInfo { id, name: "ProjectionPrivate" }),
        0x7673 => Some(NodeInfo { id, name: "ProjectionPoseYaw" }),
        0x7674 => Some(NodeInfo { id, name: "ProjectionPosePitch" }),
        0x7675 => Some(NodeInfo { id, name: "ProjectionPoseRoll" }),
        0xb5 => Some(NodeInfo { id, name: "SamplingFrequency" }),
        0x78b5 => Some(NodeInfo { id, name: "OutputSamplingFrequency" }),
        0x9f => Some(NodeInfo { id, name: "Channels" }),
        0x6264 => Some(NodeInfo { id, name: "BitDepth" }),
        0x5031 => Some(NodeInfo { id, name: "ContentEncodingOrder" }),
        0x5032 => Some(NodeInfo { id, name: "ContentEncodingScope" }),
        0x5033 => Some(NodeInfo { id, name: "ContentEncodingType" }),
        0x47e1 => Some(NodeInfo { id, name: "ContentEncAlgo" }),
        0x47e2 => Some(NodeInfo { id, name: "ContentEncKeyID" }),
        0x47e8 => Some(NodeInfo { id, name: "AESSettingsCipherMode" }),
        0xb3 => Some(NodeInfo { id, name: "CueTime" }),
        0xf7 => Some(NodeInfo { id, name: "CueTrack" }),
        0xf1 => Some(NodeInfo { id, name: "CueClusterPosition" }),
        0x5378 => Some(NodeInfo { id, name: "CueBlockNumber" }),
        0x73c4 => Some(NodeInfo { id, name: "ChapterUID" }),
        0x5654 => Some(NodeInfo { id, name: "ChapterStringUID" }),
        0x91 => Some(NodeInfo { id, name: "ChapterTimeStart" }),
        0x85 => Some(NodeInfo { id, name: "ChapString" }),
        0x437c => Some(NodeInfo { id, name: "ChapLanguage" }),
        0x68ca => Some(NodeInfo { id, name: "TargetTypeValue" }),
        0x63ca => Some(NodeInfo { id, name: "TargetType" }),
        0x63c5 => Some(NodeInfo { id, name: "TagTrackUID" }),
        0x45a3 => Some(NodeInfo { id, name: "TagName" }),
        0x447a => Some(NodeInfo { id, name: "TagLanguage" }),
        0x4484 => Some(NodeInfo { id, name: "TagDefault" }),
        0x4487 => Some(NodeInfo { id, name: "TagString" }),
        0x4485 => Some(NodeInfo { id, name: "TagBinary" }),
        0x23314f => Some(NodeInfo { id, name: "TrackTimestampScale" }),
        0xa7 => Some(NodeInfo { id, name: "Position" }),
        0x73a4 => Some(NodeInfo { id, name: "SegmentUID" }),
        _ => None,
    }
}

} // verus!
