//! Decoding of EBML streams, the tagged tree encoding of WebM and Matroska,
//! into an element tree with typed, schema-aware views over it.
//!
//! `codec` holds the primitive decodings, `registry` the kinds and names of
//! the identifiers, `tree` the element tree and the rules that build it,
//! `reader` the parser over a whole stream, and `views` the typed views.
pub mod codec;
pub mod error;
pub mod reader;
pub mod registry;
pub mod tree;
pub mod views;

pub use codec::{
    bytes_to_float_bits, bytes_to_int, bytes_to_string, bytes_to_uint, count_leading_zeros,
    read_vint, vint_length, ElementData, FloatBits,
};
pub use error::EbmlError;
pub use reader::{WebmFile, WebmReader};
pub use registry::{element_kind, get_node_info, ElementKind, NodeInfo};
pub use tree::{Element, ElementValue, Node};
pub use views::{
    AudioNode, BlockGroupNode, ChapterAtomNode, ChapterDisplayNode, ChaptersNode,
    ClusterNode, ContentEncAESSettingsNode, ContentEncodingNode, ContentEncodingsNode,
    ContentEncryptionNode, CuePointNode, CueTrackPositionsNode, CuesNode, EBMLHeaderNode,
    EditionEntryNode, InfoNode, ProjectionNode, SeekHeadNode, SeekNode, SegmentNode,
    SimpleTagNode, SlicesNode, TagNode, TagsNode, TargetsNode, TrackEntryNode, TracksNode,
    VideoNode,
};
