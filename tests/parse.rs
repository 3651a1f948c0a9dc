use webm::{
    element_kind, get_node_info, EbmlError, ElementKind, ElementValue, FloatBits, Node, WebmFile,
    WebmReader,
};

/// An element with a one-octet size field.
fn elem(id: &[u8], payload: &[u8]) -> Vec<u8> {
    assert!(payload.len() < 127);
    let mut out = id.to_vec();
    out.push(0x80 | payload.len() as u8);
    out.extend_from_slice(payload);
    out
}

fn concat(parts: &[Vec<u8>]) -> Vec<u8> {
    let mut out = Vec::new();
    for p in parts {
        out.extend_from_slice(p);
    }
    out
}

fn header() -> Vec<u8> {
    elem(
        &[0x1A, 0x45, 0xDF, 0xA3],
        &concat(&[
            elem(&[0x42, 0x86], &[1]),
            elem(&[0x42, 0xF7], &[1]),
            elem(&[0x42, 0xF2], &[4]),
            elem(&[0x42, 0xF3], &[8]),
            elem(&[0x42, 0x82], b"webm"),
            elem(&[0x42, 0x87], &[2]),
            elem(&[0x42, 0x85], &[2]),
        ]),
    )
}

fn info() -> Vec<u8> {
    elem(
        &[0x15, 0x49, 0xA9, 0x66],
        &concat(&[
            elem(&[0x2A, 0xD7, 0xB1], &[0x0F, 0x42, 0x40]),
            elem(&[0x4D, 0x80], b"test"),
            elem(&[0x57, 0x41], b"test"),
        ]),
    )
}

fn segment(children: &[Vec<u8>]) -> Vec<u8> {
    elem(&[0x18, 0x53, 0x80, 0x67], &concat(children))
}

fn minimal_stream() -> Vec<u8> {
    concat(&[header(), segment(&[info(), elem(&[0x16, 0x54, 0xAE, 0x6B], &[])])])
}

fn parse(bytes: Vec<u8>) -> Result<WebmFile, EbmlError> {
    WebmReader::new(bytes).parse()
}

fn parse_err(bytes: Vec<u8>) -> EbmlError {
    match parse(bytes) {
        Ok(_) => panic!("the parse was expected to fail"),
        Err(e) => e,
    }
}

fn encoded_len(n: &Node) -> u64 {
    let e = n.get_element();
    e.header_len + e.size
}

#[test]
fn minimal_stream_end_to_end() {
    let doc = parse(minimal_stream()).unwrap();
    assert_eq!(doc.header.get_element().id, 0x1a45dfa3);
    assert_eq!(doc.root.get_element().id, 0x18538067);
    let infos = doc.root.get_info_nodes();
    assert_eq!(infos.len(), 1);
    assert_eq!(infos[0].get_timestamp_scale(), Ok(1_000_000));
    assert_eq!(infos[0].get_muxing_app().unwrap(), "test");
    assert_eq!(infos[0].get_writing_app().unwrap(), "test");
    assert_eq!(infos[0].get_duration_bits(), None);
    assert_eq!(infos[0].get_date_created(), None);
    let tracks = doc.root.get_tracks();
    assert_eq!(tracks.len(), 1);
    assert!(tracks[0].get_track_entries().is_empty());
    assert!(doc.root.get_clusters().is_empty());
}

#[test]
fn header_fields() {
    let doc = parse(minimal_stream()).unwrap();
    let h = &doc.header;
    assert_eq!(h.get_version(), Ok(1));
    assert_eq!(h.get_read_version(), Ok(1));
    assert_eq!(h.get_max_id_length(), Ok(4));
    assert_eq!(h.get_max_size_length(), Ok(8));
    assert_eq!(h.get_doc_type().unwrap(), "webm");
    assert_eq!(h.get_doc_type_version(), Ok(2));
    assert_eq!(h.get_doc_type_read_version(), Ok(2));
}

#[test]
fn children_fill_declared_size() {
    let doc = parse(minimal_stream()).unwrap();
    for n in [doc.header.0.clone(), doc.root.0.clone()] {
        let total: u64 = n.get_children().iter().map(encoded_len).sum();
        assert_eq!(total, n.get_element().size);
    }
    let info = &doc.root.get_info_nodes()[0];
    let total: u64 = info.get_children().iter().map(encoded_len).sum();
    assert_eq!(total, info.get_element().size);
    assert_eq!(info.get_element().header_len, 5);
    assert_eq!(info.get_element().kind, ElementKind::Master);
}

#[test]
fn child_overrunning_parent_is_span_mismatch() {
    // The Info element claims two more octets than the Segment has left.
    let mut inner = info();
    inner[4] += 2;
    let mut bytes = concat(&[header(), segment(&[inner])]);
    bytes.extend_from_slice(&[0xEC, 0x80]);
    let seg_at = header().len() as u64;
    assert_eq!(parse_err(bytes), EbmlError::SpanMismatch { offset: seg_at + 5 });
}

#[test]
fn children_short_of_parent_is_span_mismatch() {
    // The Segment declares one octet more than its Info child fills; the
    // leftover octet starts a header that does not fit.
    let mut bytes = concat(&[header(), segment(&[info()])]);
    let seg_at = header().len();
    bytes[seg_at + 4] += 1;
    bytes.push(0x42);
    let at = (bytes.len() - 1) as u64;
    assert_eq!(parse_err(bytes), EbmlError::SpanMismatch { offset: at });
}

#[test]
fn every_truncation_is_truncated_input() {
    let full = minimal_stream();
    for cut in 4..full.len() {
        let e = parse_err(full[..cut].to_vec());
        assert!(matches!(e, EbmlError::TruncatedInput { .. }), "cut at {}: {:?}", cut, e);
    }
}

#[test]
fn truncation_inside_segment_reports_segment_offset() {
    let full = minimal_stream();
    let seg_at = header().len();
    let e = parse_err(full[..seg_at + 10].to_vec());
    assert_eq!(e, EbmlError::TruncatedInput { offset: seg_at as u64 });
    let e = parse_err(full[..seg_at].to_vec());
    assert_eq!(e, EbmlError::TruncatedInput { offset: seg_at as u64 });
}

#[test]
fn corrupt_signature_is_bad_signature() {
    let full = minimal_stream();
    for i in 0..4 {
        let mut bytes = full.clone();
        bytes[i] ^= 0x01;
        assert_eq!(parse_err(bytes), EbmlError::BadSignature);
    }
    assert_eq!(parse_err(vec![0x1A, 0x45, 0xDF]), EbmlError::BadSignature);
    assert_eq!(parse_err(vec![]), EbmlError::BadSignature);
}

#[test]
fn unknown_elements_are_kept_as_binary() {
    let odd = elem(&[0x4F, 0xFF], &[1, 2, 3]);
    let doc = parse(concat(&[header(), segment(&[odd, info()])])).unwrap();
    let children = doc.root.get_children();
    assert_eq!(children.len(), 2);
    let e = children[0].get_element();
    assert_eq!(e.id, 0x4FFF);
    assert_eq!(e.kind, ElementKind::Unknown);
    assert_eq!(e.data.into_vec(), vec![1, 2, 3]);
    assert_eq!(doc.root.get_info_nodes().len(), 1);
}

#[test]
fn missing_mandatory_field() {
    let bad_info = elem(&[0x15, 0x49, 0xA9, 0x66], &elem(&[0x4D, 0x80], b"x"));
    let doc = parse(concat(&[header(), segment(&[bad_info])])).unwrap();
    let info = &doc.root.get_info_nodes()[0];
    assert_eq!(info.get_timestamp_scale(), Err(EbmlError::MissingField { id: 0x2ad7b1 }));
    assert_eq!(info.get_writing_app(), Err(EbmlError::MissingField { id: 0x5741 }));
    assert_eq!(info.get_muxing_app().unwrap(), "x");
}

#[test]
fn invalid_utf8_field() {
    let bad_info = elem(
        &[0x15, 0x49, 0xA9, 0x66],
        &concat(&[elem(&[0x4D, 0x80], &[0xFF, 0xFE]), elem(&[0x2A, 0xD7, 0xB1], &[1])]),
    );
    let doc = parse(concat(&[header(), segment(&[bad_info])])).unwrap();
    let info = &doc.root.get_info_nodes()[0];
    assert_eq!(info.get_muxing_app(), Err(EbmlError::InvalidEncoding { id: 0x4d80 }));
    assert_eq!(info.get_timestamp_scale(), Ok(1));
}

fn track_entry() -> Vec<u8> {
    elem(
        &[0xAE],
        &concat(&[
            elem(&[0xD7], &[1]),
            elem(&[0x73, 0xC5], &[0x12, 0x34]),
            elem(&[0x83], &[2]),
            elem(&[0xB9], &[1]),
            elem(&[0x88], &[2]),
            elem(&[0x55, 0xAA], &[0]),
            elem(&[0x9C], &[0, 1]),
            elem(&[0x86], b"A_OPUS"),
            elem(&[0x63, 0xA2], &[9, 8]),
            elem(&[0x56, 0xBB], &[0x10]),
            elem(&[0x22, 0xB5, 0x9C], b"eng"),
            elem(&[0xE1], &concat(&[
                elem(&[0xB5], &[0x47, 0x3B, 0x80, 0x00]),
                elem(&[0x9F], &[2]),
            ])),
        ]),
    )
}

#[test]
fn track_entry_fields() {
    let tracks = elem(&[0x16, 0x54, 0xAE, 0x6B], &track_entry());
    let doc = parse(concat(&[header(), segment(&[tracks])])).unwrap();
    let entries = doc.root.get_tracks()[0].get_track_entries();
    assert_eq!(entries.len(), 1);
    let t = &entries[0];
    assert_eq!(t.get_track_number(), Ok(1));
    assert_eq!(t.get_track_uid(), Ok(0x1234));
    assert_eq!(t.get_track_type(), Ok(2));
    assert_eq!(t.is_enabled(), Ok(true));
    assert_eq!(t.is_default(), Ok(false));
    assert_eq!(t.is_forced(), Ok(false));
    assert_eq!(t.is_laced(), Ok(true));
    assert_eq!(t.get_codec_id().unwrap(), "A_OPUS");
    assert_eq!(t.get_codec_private(), Some(vec![9, 8]));
    assert_eq!(t.get_seek_preroll(), Ok(0x10));
    assert_eq!(t.get_language().unwrap(), Some("eng".to_string()));
    assert_eq!(t.get_name().unwrap(), None);
    assert_eq!(t.get_default_duration(), None);
    assert!(t.get_video_settings().is_none());
    let audio = t.get_audio_settings().unwrap();
    assert_eq!(audio.get_num_channels(), Ok(2));
    assert_eq!(audio.get_sampling_frequency_bits(), Ok(FloatBits::Single(0x473B8000)));
    assert_eq!(audio.get_bit_depth(), None);
}

#[test]
fn cluster_and_block_group_fields() {
    let group = elem(
        &[0xA0],
        &concat(&[
            elem(&[0xA1], &[1, 2]),
            elem(&[0xFB], &[0xFE]),
            elem(&[0xFB], &[0x05]),
            elem(&[0x75, 0xA2], &[0xFF, 0x00]),
        ]),
    );
    let cluster = elem(
        &[0x1F, 0x43, 0xB6, 0x75],
        &concat(&[
            elem(&[0xE7], &[0x03, 0xE8]),
            elem(&[0xA3], &[7, 7]),
            elem(&[0xA3], &[8]),
            group,
        ]),
    );
    let doc = parse(concat(&[header(), segment(&[cluster])])).unwrap();
    let clusters = doc.root.get_clusters();
    assert_eq!(clusters.len(), 1);
    let c = &clusters[0];
    assert_eq!(c.get_timestamp(), Ok(1000));
    assert_eq!(c.get_prev_size(), None);
    let blocks = c.get_simple_blocks();
    assert_eq!(blocks.len(), 2);
    assert_eq!(blocks[1].get_element().data.into_vec(), vec![8]);
    let groups = c.get_block_groups();
    assert_eq!(groups.len(), 1);
    assert_eq!(groups[0].get_reference_blocks(), vec![-2, 5]);
    assert_eq!(groups[0].get_discard_padding(), Some(-256));
    assert_eq!(groups[0].get_block_duration(), None);
    assert!(groups[0].get_slices().is_none());
}

#[test]
fn tags_and_chapters() {
    let targets = elem(
        &[0x63, 0xC0],
        &concat(&[elem(&[0x68, 0xCA], &[50]), elem(&[0x63, 0xC5], &[1]), elem(&[0x63, 0xC5], &[2])]),
    );
    let simple = elem(
        &[0x67, 0xC8],
        &concat(&[
            elem(&[0x45, 0xA3], b"TITLE"),
            elem(&[0x44, 0x7A], b"und"),
            elem(&[0x44, 0x84], &[1]),
            elem(&[0x44, 0x87], b"Movie"),
        ]),
    );
    let tags = elem(&[0x12, 0x54, 0xC3, 0x67], &elem(&[0x73, 0x73], &concat(&[targets, simple])));
    let display = elem(
        &[0x80],
        &concat(&[elem(&[0x85], b"Intro"), elem(&[0x43, 0x7C], b"eng"), elem(&[0x43, 0x7C], b"fre")]),
    );
    let atom = elem(
        &[0xB6],
        &concat(&[elem(&[0x73, 0xC4], &[9]), elem(&[0x91], &[0]), display]),
    );
    let chapters = elem(&[0x10, 0x43, 0xA7, 0x70], &elem(&[0x45, 0xB9], &atom));
    let doc = parse(concat(&[header(), segment(&[tags, chapters])])).unwrap();
    let tag = &doc.root.get_tags()[0].get_tags()[0];
    let t = tag.get_targets().unwrap();
    assert_eq!(t.get_type_value(), Some(50));
    assert_eq!(t.get_type().unwrap(), None);
    assert_eq!(t.get_track_uid(), vec![1, 2]);
    let st = &tag.get_simple_tags()[0];
    assert_eq!(st.get_name().unwrap(), "TITLE");
    assert_eq!(st.get_language().unwrap(), "und");
    assert_eq!(st.get_default(), Ok(1));
    assert_eq!(st.get_string().unwrap(), Some("Movie".to_string()));
    assert_eq!(st.get_binary(), None);
    let a = &doc.root.get_chapters()[0].get_edition_entries()[0].get_chapter_atoms()[0];
    assert_eq!(a.get_uid(), Ok(9));
    assert_eq!(a.get_start_time(), Ok(0));
    assert_eq!(a.get_string_uid().unwrap(), None);
    let d = &a.get_displays()[0];
    assert_eq!(d.get_string().unwrap(), "Intro");
    assert_eq!(d.get_languages().unwrap(), vec!["eng".to_string(), "fre".to_string()]);
}

#[test]
fn registry_lookups() {
    assert_eq!(element_kind(0x1a45dfa3), ElementKind::Master);
    assert_eq!(element_kind(0x4d80), ElementKind::UTF8);
    assert_eq!(element_kind(0xfb), ElementKind::SInt);
    assert_eq!(element_kind(0x4489), ElementKind::Float);
    assert_eq!(element_kind(0x4461), ElementKind::Date);
    assert_eq!(element_kind(0x86), ElementKind::String);
    assert_eq!(element_kind(0xa3), ElementKind::Binary);
    assert_eq!(element_kind(0x2ad7b1), ElementKind::UInt);
    assert_eq!(element_kind(0x4fff), ElementKind::Unknown);
    let info = get_node_info(0x18538067).unwrap();
    assert_eq!(info.id, 0x18538067);
    assert_eq!(info.name, "SegmentNode");
    assert!(get_node_info(0x4fff).is_none());
}

#[test]
fn element_values_follow_kind() {
    let doc = parse(minimal_stream()).unwrap();
    assert!(matches!(doc.root.get_element().value(), ElementValue::Children));
    let info = &doc.root.get_info_nodes()[0];
    let kids = info.get_children();
    assert!(matches!(kids[0].get_element().value(), ElementValue::Unsigned(1_000_000)));
    match kids[1].get_element().value() {
        ElementValue::Text(t) => assert_eq!(t, "test"),
        _ => panic!("a text element was expected"),
    }
    let odd = elem(&[0x4F, 0xFF], &[1, 2]);
    let bad = elem(&[0x86], &[0xFF]);
    let doc = parse(concat(&[header(), segment(&[odd, bad])])).unwrap();
    for child in doc.root.get_children() {
        match child.get_element().value() {
            ElementValue::Bytes(b) => assert!(b == vec![1, 2] || b == vec![0xFF]),
            _ => panic!("raw octets were expected"),
        }
    }
}

#[test]
fn seek_cues_video_and_encoding_fields() {
    let seek_head = elem(
        &[0x11, 0x4D, 0x9B, 0x74],
        &elem(&[0x4D, 0xBB], &concat(&[elem(&[0x53, 0xAB], &[0x15, 0x49, 0xA9, 0x66]), elem(&[0x53, 0xAC], &[0x40])])),
    );
    let cues = elem(
        &[0x1C, 0x53, 0xBB, 0x6B],
        &elem(
            &[0xBB],
            &concat(&[
                elem(&[0xB3], &[0x10]),
                elem(&[0xB7], &concat(&[elem(&[0xF7], &[1]), elem(&[0xF1], &[0x01, 0x00])])),
            ]),
        ),
    );
    let projection = elem(
        &[0x76, 0x70],
        &concat(&[
            elem(&[0x76, 0x71], &[1]),
            elem(&[0x76, 0x73], &[0x3F, 0x80, 0x00, 0x00]),
            elem(&[0x76, 0x74], &[0, 0, 0, 0]),
            elem(&[0x76, 0x75], &[0, 0, 0, 0, 0, 0, 0, 0]),
        ]),
    );
    let video = elem(
        &[0xE0],
        &concat(&[
            elem(&[0x9A], &[0]),
            elem(&[0xB0], &[0x02, 0x80]),
            elem(&[0xBA], &[0x01, 0xE0]),
            elem(&[0x54, 0xB2], &[0]),
            projection,
        ]),
    );
    let encodings = elem(
        &[0x6D, 0x80],
        &elem(
            &[0x62, 0x40],
            &concat(&[
                elem(&[0x50, 0x31], &[0]),
                elem(&[0x50, 0x32], &[1]),
                elem(&[0x50, 0x33], &[1]),
                elem(&[0x50, 0x35], &concat(&[elem(&[0x47, 0xE1], &[5]), elem(&[0x47, 0xE7], &elem(&[0x47, 0xE8], &[1]))])),
            ]),
        ),
    );
    let entry = elem(&[0xAE], &concat(&[video, encodings]));
    let tracks = elem(&[0x16, 0x54, 0xAE, 0x6B], &entry);
    let doc = parse(concat(&[header(), segment(&[seek_head, cues, tracks])])).unwrap();

    let seek = &doc.root.get_seek_head_nodes()[0].get_seek_nodes()[0];
    assert_eq!(seek.get_seek_id(), Ok(vec![0x15, 0x49, 0xA9, 0x66]));
    assert_eq!(seek.get_seek_position(), Ok(0x40));

    let point = &doc.root.get_cues()[0].get_cue_points()[0];
    assert_eq!(point.get_time(), Ok(0x10));
    let pos = &point.get_positions()[0];
    assert_eq!(pos.get_track(), Ok(1));
    assert_eq!(pos.get_cluster_position(), Ok(0x100));
    assert_eq!(pos.get_block_number(), None);

    let entry = &doc.root.get_tracks()[0].get_track_entries()[0];
    assert_eq!(entry.get_track_number(), Err(EbmlError::MissingField { id: 0xd7 }));
    let v = entry.get_video_settings().unwrap();
    assert_eq!(v.get_interlacing_flag(), Ok(0));
    assert_eq!(v.get_pixel_width(), Ok(640));
    assert_eq!(v.get_pixel_height(), Ok(480));
    assert_eq!(v.get_display_unit(), Some(0));
    assert_eq!(v.get_stereo_mode(), None);
    let p = v.get_projection().unwrap();
    assert_eq!(p.get_type(), Ok(1));
    assert_eq!(p.get_private(), None);
    assert_eq!(p.get_pose_yaw_bits(), Ok(FloatBits::Single(0x3F800000)));
    assert_eq!(p.get_pose_pitch_bits(), Ok(FloatBits::Single(0)));
    assert_eq!(p.get_pose_roll_bits(), Ok(FloatBits::Double(0)));

    let enc = &entry.get_encoding_settings().unwrap().get_encodings()[0];
    assert_eq!(enc.get_order(), Ok(0));
    assert_eq!(enc.get_scope(), Ok(1));
    assert_eq!(enc.get_type(), Ok(1));
    let cryp = enc.get_encryption_node().unwrap();
    assert_eq!(cryp.get_algorithm_type(), Ok(5));
    assert_eq!(cryp.get_key_id(), None);
    assert_eq!(cryp.get_aes_settings().unwrap().get_mode(), Ok(1));
}
