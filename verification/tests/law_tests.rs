use pmx::datablock::DataBlock;
use pmx::error::DecodeError;
use pmx::globals::{Globals, Header};
use pmx::model::{Face, Model, Pmx};
use pmx::morph::{Morph, MorphType};
use pmx::pmxbone::{Bone, BoneFlags, IKLink};
use pmx::pmxindex::{encode_index, le_integer, le_unsigned, Index};
use pmx::pmxmaterial::{Material, ModeSet, SphereMode, ToonMode};
use pmx::pmxstring::{Name, PmxString};
use pmx::reader::Reader;
use pmx::vecs::{Vec3, Vec4};
use pmx::vertex::{BoneWeight, Vertex};

fn push_empty_string(d: &mut DataBlock) {
    d.push_u32(0);
}

fn push_f32(d: &mut DataBlock, f: f32) {
    d.push_u32(f.to_bits());
}

fn push_vec3(d: &mut DataBlock, x: f32, y: f32, z: f32) {
    push_f32(d, x);
    push_f32(d, y);
    push_f32(d, z);
}

fn push_vec4(d: &mut DataBlock, x: f32, y: f32, z: f32, w: f32) {
    push_f32(d, x);
    push_f32(d, y);
    push_f32(d, z);
    push_f32(d, w);
}

/// Globals with UTF-8 strings and small index widths.
fn small_globals() -> Globals {
    Globals {
        encoding: 1,
        additional: 0,
        vertex_index_size: 1,
        texture_index_size: 1,
        material_index_size: 1,
        bone_index_size: 2,
        morph_index_size: 1,
        rigidbody_index_size: 1,
    }
}

/// The header bytes for `small_globals` with empty name and comment strings.
fn push_small_header(d: &mut DataBlock) {
    d.push_bytes("PMX ".as_bytes());
    d.push_u32(2.0f32.to_bits());
    d.push_u8(8);
    d.push_bytes(&[1, 0, 1, 1, 1, 2, 1, 1]);
    for _ in 0..4 {
        push_empty_string(d);
    }
}

// Decoding then re-encoding a globals block round-trips the exact bytes.
#[test]
fn globals_bytes_round_trip() {
    let bytes = [0u8, 3, 2, 1, 4, 2, 1, 4];
    let g = Globals::from_bytes(&bytes[..]);
    assert_eq!(g.to_bytes(), bytes.to_vec());
    assert_eq!(Globals::from_bytes(&g.to_bytes()[..]), g);
}

// Scenario: a specific valid header decodes to the expected Globals and four
// empty strings.
#[test]
fn header_scenario_empty_strings() {
    let mut d = DataBlock::new();
    d.push_bytes("PMX ".as_bytes());
    d.push_u32(2.0f32.to_bits());
    d.push_u8(8);
    d.push_bytes(&[0, 0, 2, 1, 1, 2, 2, 2]);
    for _ in 0..4 {
        push_empty_string(&mut d);
    }
    let mut r = Reader::new(d.unwrap());
    let h = Header::parse(&mut r).unwrap();
    assert_eq!(h.version, 2.0f32.to_bits());
    assert_eq!(h.globals.encoding, 0);
    assert_eq!(h.globals.additional, 0);
    assert_eq!(h.globals.vertex_index_size, 2);
    assert_eq!(h.globals.texture_index_size, 1);
    assert_eq!(h.globals.material_index_size, 1);
    assert_eq!(h.globals.bone_index_size, 2);
    assert_eq!(h.globals.morph_index_size, 2);
    assert_eq!(h.globals.rigidbody_index_size, 2);
    assert_eq!(h.model_name.0, "");
    assert_eq!(h.model_name_en.0, "");
    assert_eq!(h.comment.0, "");
    assert_eq!(h.comment_en.0, "");
}

// Encoding then decoding a signed index round-trips at every width,
// the -1 sentinel included.
#[test]
fn index_round_trip_signed() {
    let cases: [(i32, u8); 12] = [
        (-1, 1),
        (0, 1),
        (127, 1),
        (-128, 1),
        (-1, 2),
        (0, 2),
        (32767, 2),
        (-32768, 2),
        (-1, 4),
        (0, 4),
        (2147483647, 4),
        (-2147483648, 4),
    ];
    for (v, size) in cases {
        let bytes = encode_index(v, size);
        assert_eq!(bytes.len(), size as usize);
        let mut r = Reader::new(bytes);
        assert_eq!(le_integer(&mut r, size).unwrap(), v);
        assert_eq!(r.pos(), size as usize);
    }
}

// Encoding then decoding an unsigned vertex index round-trips at every width.
#[test]
fn index_round_trip_unsigned() {
    let cases: [(i32, u8); 8] =
        [(0, 1), (200, 1), (255, 1), (0, 2), (65535, 2), (40000, 2), (0, 4), (2147483647, 4)];
    for (v, size) in cases {
        let bytes = encode_index(v, size);
        let mut r = Reader::new(bytes);
        assert_eq!(le_unsigned(&mut r, size).unwrap(), v);
        assert_eq!(r.pos(), size as usize);
    }
}

// The sentinel decodes to -1 from the all-ones pattern of every width.
#[test]
fn index_sentinel_all_widths() {
    for (size, raw) in [(1u8, vec![0xFFu8]), (2, vec![0xFF, 0xFF]), (4, vec![0xFF, 0xFF, 0xFF, 0xFF])]
    {
        let mut r = Reader::new(raw);
        assert_eq!(Index::decode(&mut r, size).unwrap(), Index(-1));
    }
}

// Each BoneWeight discriminant consumes exactly its documented field set:
// the cursor lands at a deterministic offset per variant (bone width 2).
#[test]
fn bone_weight_consumption_per_variant() {
    let w = 2u8;
    let sizes: [(u8, usize); 5] = [(0, 2), (1, 8), (2, 24), (3, 44), (4, 24)];
    for (tag, payload) in sizes {
        let mut d = DataBlock::new();
        d.push_u8(tag);
        d.push_bytes(&vec![0u8; payload]);
        // two trailing bytes that must stay unread
        d.push_bytes(&[0xAB, 0xCD]);
        let mut r = Reader::new(d.unwrap());
        let bw = BoneWeight::parse(&mut r, w).unwrap();
        assert_eq!(r.pos(), 1 + payload);
        match tag {
            0 => assert!(matches!(bw, BoneWeight::BDEF1 { .. })),
            1 => assert!(matches!(bw, BoneWeight::BDEF2 { .. })),
            2 => assert!(matches!(bw, BoneWeight::BDEF4 { .. })),
            3 => assert!(matches!(bw, BoneWeight::SDEF { .. })),
            _ => assert!(matches!(bw, BoneWeight::QDEF { .. })),
        }
    }
}

// Scenario: a bone whose flags hold only CanRotate and Visible decodes a
// position offset and leaves every other optional block absent.
#[test]
fn bone_scenario_rotate_visible_only() {
    let g = small_globals();
    let mut d = DataBlock::new();
    push_empty_string(&mut d);  // name
    push_empty_string(&mut d);  // english name
    push_vec3(&mut d, 1.0, 2.0, 3.0);  // rest position
    d.push_index(-1, 2);  // parent
    d.push_i32(0);  // deform depth
    d.push_bytes(&[0x0A, 0x00]);  // CanRotate | Visible
    push_vec3(&mut d, 4.0, 5.0, 6.0);  // position offset (TargetMode clear)
    let bytes = d.unwrap();
    let total = bytes.len();
    let mut r = Reader::new(bytes);
    let bone = Bone::parse(&mut r, &g).unwrap();
    assert_eq!(r.pos(), total);
    assert_eq!(bone.flags, ModeSet { bits: 0x000A });
    assert!(bone.flags.contains(BoneFlags::CanRotate.mask()));
    assert!(bone.flags.contains(BoneFlags::Visible.mask()));
    assert_eq!(
        bone.extra.position_offset,
        Some(Vec3 { x: 4.0f32.to_bits(), y: 5.0f32.to_bits(), z: 6.0f32.to_bits() })
    );
    assert_eq!(bone.extra.link_id, None);
    assert_eq!(bone.extra.append, None);
    assert_eq!(bone.extra.fixed_axes, None);
    assert_eq!(bone.extra.local_rot, None);
    assert_eq!(bone.extra.key_value, None);
    assert!(bone.extra.ik.is_none());
}

// Both append flags set yield one joint append block, not two.
#[test]
fn bone_append_rotate_and_translate_one_block() {
    let g = small_globals();
    let mut d = DataBlock::new();
    push_empty_string(&mut d);
    push_empty_string(&mut d);
    push_vec3(&mut d, 0.0, 0.0, 0.0);
    d.push_index(-1, 2);
    d.push_i32(0);
    d.push_bytes(&[0x00, 0x03]);  // AppendRotate | AppendTranslate
    push_vec3(&mut d, 0.0, 0.0, 0.0);  // position offset
    d.push_index(7, 2);  // one append block
    push_f32(&mut d, 0.5);
    let bytes = d.unwrap();
    let total = bytes.len();
    let mut r = Reader::new(bytes);
    let bone = Bone::parse(&mut r, &g).unwrap();
    assert_eq!(r.pos(), total);
    assert_eq!(bone.extra.append, Some((Index(7), 0.5f32.to_bits())));
}

// A bone with the IK flag carries the IK block and its link chain.
#[test]
fn bone_ik_block_with_links() {
    let g = small_globals();
    let mut d = DataBlock::new();
    push_empty_string(&mut d);
    push_empty_string(&mut d);
    push_vec3(&mut d, 0.0, 0.0, 0.0);
    d.push_index(0, 2);
    d.push_i32(1);
    d.push_bytes(&[0x20, 0x00]);  // IK
    push_vec3(&mut d, 0.0, 0.0, 0.0);  // position offset
    d.push_index(3, 2);  // IK target
    d.push_i32(40);  // iterations
    push_f32(&mut d, 1.0);  // angle limit
    d.push_u32(2);  // two links
    d.push_index(4, 2);
    d.push_u8(0);  // no limits
    d.push_index(5, 2);
    d.push_u8(1);  // with limits
    push_vec3(&mut d, -1.0, -1.0, -1.0);
    push_vec3(&mut d, 1.0, 1.0, 1.0);
    let bytes = d.unwrap();
    let total = bytes.len();
    let mut r = Reader::new(bytes);
    let bone = Bone::parse(&mut r, &g).unwrap();
    assert_eq!(r.pos(), total);
    let ik = bone.extra.ik.unwrap();
    assert_eq!(ik.bone_id, Index(3));
    assert_eq!(ik.num_iterations, 40);
    assert_eq!(ik.limit, 1.0f32.to_bits());
    assert_eq!(ik.links.len(), 2);
    assert_eq!(ik.links[0].bone_id, Index(4));
    assert_eq!(ik.links[0].limits, None);
    assert_eq!(ik.links[1].bone_id, Index(5));
    assert!(ik.links[1].limits.is_some());
}

// Scenario: a UV morph populates only the uv list with the declared count;
// the other six payload lists stay empty.
#[test]
fn morph_scenario_uv_payload_only() {
    let g = small_globals();
    let mut d = DataBlock::new();
    push_empty_string(&mut d);  // name
    push_empty_string(&mut d);  // english name
    d.push_u8(4);  // panel
    d.push_u8(3);  // UV
    d.push_u32(2);
    d.push_index(9, 1);
    push_vec4(&mut d, 0.1, 0.2, 0.3, 0.4);
    d.push_index(10, 1);
    push_vec4(&mut d, 0.5, 0.6, 0.7, 0.8);
    let bytes = d.unwrap();
    let total = bytes.len();
    let mut r = Reader::new(bytes);
    let m = Morph::parse(&mut r, &g).unwrap();
    assert_eq!(r.pos(), total);
    assert_eq!(m.morph_type, MorphType::UV);
    assert_eq!(m.uv.len(), 2);
    assert_eq!(m.uv[0].index, 9);
    assert_eq!(m.uv[1].index, 10);
    assert_eq!(m.position.len(), 0);
    assert_eq!(m.bone.len(), 0);
    assert_eq!(m.material.len(), 0);
    assert_eq!(m.group.len(), 0);
    assert_eq!(m.flip.len(), 0);
    assert_eq!(m.impulse.len(), 0);
}

// A group morph populates only the group list.
#[test]
fn morph_group_payload_only() {
    let g = small_globals();
    let mut d = DataBlock::new();
    push_empty_string(&mut d);
    push_empty_string(&mut d);
    d.push_u8(0);
    d.push_u8(0);  // Group
    d.push_u32(1);
    d.push_index(2, 1);
    push_f32(&mut d, 0.25);
    let mut r = Reader::new(d.unwrap());
    let m = Morph::parse(&mut r, &g).unwrap();
    assert_eq!(m.morph_type, MorphType::Group);
    assert_eq!(m.group.len(), 1);
    assert_eq!(m.group[0].index, Index(2));
    assert_eq!(m.group[0].weight, 0.25f32.to_bits());
    assert_eq!(
        m.position.len() + m.uv.len() + m.bone.len() + m.material.len() + m.flip.len()
            + m.impulse.len(),
        0
    );
}

fn material_with_count(n: i32) -> Material {
    Material {
        name: Name { jp: PmxString(String::new()), en: PmxString(String::new()) },
        diffuse: Vec4 { x: 0, y: 0, z: 0, w: 0 },
        specular: Vec3 { x: 0, y: 0, z: 0 },
        intensity: 0,
        ambient: Vec3 { x: 0, y: 0, z: 0 },
        draw_mode: ModeSet { bits: 0 },
        edge_color: Vec4 { x: 0, y: 0, z: 0, w: 0 },
        edge_size: 0,
        texture_id: Index(-1),
        sphere_texture_id: Index(-1),
        sphere_mode: SphereMode::NONE,
        toon_mode: ToonMode::Separate,
        toon_texture_id: Index(-1),
        memo: PmxString(String::new()),
        num_vertex_indices: n,
    }
}

// The face-count checker accepts exactly the models whose materials'
// vertex-index counts sum to three times the triangle count.
#[test]
fn face_count_consistency_checker() {
    let faces = vec![Face(0, 1, 2), Face(2, 1, 0)];
    let good = Model {
        vertices: Vec::new(),
        faces: faces.clone(),
        textures: Vec::new(),
        materials: vec![material_with_count(3), material_with_count(3)],
        bones: Vec::new(),
        morphs: Vec::new(),
    };
    assert!(good.face_count_consistent());
    let bad = Model {
        vertices: Vec::new(),
        faces,
        textures: Vec::new(),
        materials: vec![material_with_count(3), material_with_count(2)],
        bones: Vec::new(),
        morphs: Vec::new(),
    };
    assert!(!bad.face_count_consistent());
}

// Scenario: a stream that declares N vertices but ends after N-1 yields the
// truncated-input error and no partial vertex list.
#[test]
fn truncated_vertex_list_errors() {
    let mut d = DataBlock::new();
    push_small_header(&mut d);
    d.push_u32(2);  // two vertices declared
    // one full vertex: position, normal, uv, BDEF1 weight, edge scale
    push_vec3(&mut d, 0.0, 0.0, 0.0);
    push_vec3(&mut d, 0.0, 1.0, 0.0);
    push_f32(&mut d, 0.0);
    push_f32(&mut d, 0.0);
    d.push_u8(0);
    d.push_index(0, 2);
    push_f32(&mut d, 1.0);
    // the second vertex is missing
    let res = Pmx::parse(&d.unwrap());
    assert_eq!(res.unwrap_err(), DecodeError::Truncated);
}

// A complete small file decodes end to end with every list in file order.
#[test]
fn whole_file_round() {
    let mut d = DataBlock::new();
    push_small_header(&mut d);
    // one vertex
    d.push_u32(1);
    push_vec3(&mut d, 1.0, 2.0, 3.0);
    push_vec3(&mut d, 0.0, 1.0, 0.0);
    push_f32(&mut d, 0.25);
    push_f32(&mut d, 0.75);
    d.push_u8(0);
    d.push_index(0, 2);
    push_f32(&mut d, 1.0);
    // one triangle: the count field holds 3, the number of face indices
    d.push_u32(3);
    d.push_index(0, 1);
    d.push_index(0, 1);
    d.push_index(0, 1);
    // one texture
    d.push_u32(1);
    d.push_u32(7);
    d.push_bytes("tex.png".as_bytes());
    // one material covering the triangle
    d.push_u32(1);
    push_empty_string(&mut d);
    push_empty_string(&mut d);
    push_vec4(&mut d, 1.0, 1.0, 1.0, 1.0);
    push_vec3(&mut d, 0.0, 0.0, 0.0);
    push_f32(&mut d, 5.0);
    push_vec3(&mut d, 0.1, 0.1, 0.1);
    d.push_u8(0x01);  // two-sided
    push_vec4(&mut d, 0.0, 0.0, 0.0, 1.0);
    push_f32(&mut d, 1.0);
    d.push_index(0, 1);
    d.push_index(-1, 1);
    d.push_u8(1);  // MUL
    d.push_u8(1);  // Common
    d.push_index(2, 1);
    push_empty_string(&mut d);
    d.push_i32(3);
    // one bone
    d.push_u32(1);
    push_empty_string(&mut d);
    push_empty_string(&mut d);
    push_vec3(&mut d, 0.0, 0.0, 0.0);
    d.push_index(-1, 2);
    d.push_i32(0);
    d.push_bytes(&[0x0A, 0x00]);
    push_vec3(&mut d, 0.0, 0.0, 0.0);
    // one position morph
    d.push_u32(1);
    push_empty_string(&mut d);
    push_empty_string(&mut d);
    d.push_u8(1);
    d.push_u8(1);  // Position
    d.push_u32(1);
    d.push_index(0, 1);
    push_vec3(&mut d, 0.0, 0.5, 0.0);
    let bytes = d.unwrap();
    let pmx = Pmx::parse(&bytes).unwrap();
    assert_eq!(pmx.header.globals, small_globals());
    assert_eq!(pmx.model.vertices.len(), 1);
    assert_eq!(pmx.model.faces.len(), 1);
    assert_eq!(pmx.model.faces[0], Face(0, 0, 0));
    assert_eq!(pmx.model.textures.len(), 1);
    assert_eq!(pmx.model.textures[0].0 .0, "tex.png");
    assert_eq!(pmx.model.materials.len(), 1);
    assert_eq!(pmx.model.materials[0].sphere_mode, SphereMode::MUL);
    assert_eq!(pmx.model.materials[0].toon_mode, ToonMode::Common);
    assert_eq!(pmx.model.materials[0].num_vertex_indices, 3);
    assert_eq!(pmx.model.bones.len(), 1);
    assert_eq!(pmx.model.morphs.len(), 1);
    assert_eq!(pmx.model.morphs[0].position.len(), 1);
    assert!(pmx.model.face_count_consistent());
    assert_eq!(pmx.model.vertices[0].position.z, 3.0f32.to_bits());
}

// Error taxonomy scenarios, one input per variant.
#[test]
fn error_bad_magic() {
    let mut d = DataBlock::new();
    d.push_bytes("PMD ".as_bytes());
    d.push_u32(2.0f32.to_bits());
    d.push_u8(8);
    d.push_bytes(&[1, 0, 1, 1, 1, 1, 1, 1]);
    assert_eq!(Pmx::parse(&d.unwrap()).unwrap_err(), DecodeError::BadMagic);
}

#[test]
fn error_unsupported_globals_length() {
    let mut d = DataBlock::new();
    d.push_bytes("PMX ".as_bytes());
    d.push_u32(2.0f32.to_bits());
    d.push_u8(7);
    d.push_bytes(&[1, 0, 1, 1, 1, 1, 1]);
    assert_eq!(Pmx::parse(&d.unwrap()).unwrap_err(), DecodeError::UnsupportedHeader);
}

#[test]
fn error_unknown_encoding_tag() {
    let mut d = DataBlock::new();
    d.push_bytes("PMX ".as_bytes());
    d.push_u32(2.0f32.to_bits());
    d.push_u8(8);
    d.push_bytes(&[2, 0, 1, 1, 1, 1, 1, 1]);
    assert_eq!(Pmx::parse(&d.unwrap()).unwrap_err(), DecodeError::InvalidEnumValue);
}

#[test]
fn error_invalid_index_width() {
    let mut d = DataBlock::new();
    d.push_bytes("PMX ".as_bytes());
    d.push_u32(2.0f32.to_bits());
    d.push_u8(8);
    d.push_bytes(&[1, 0, 3, 1, 1, 1, 1, 1]);
    assert_eq!(Pmx::parse(&d.unwrap()).unwrap_err(), DecodeError::InvalidIndexWidth);
}

#[test]
fn error_sphere_mode_out_of_range() {
    let g = small_globals();
    let mut d = DataBlock::new();
    push_empty_string(&mut d);
    push_empty_string(&mut d);
    push_vec4(&mut d, 0.0, 0.0, 0.0, 0.0);
    push_vec3(&mut d, 0.0, 0.0, 0.0);
    push_f32(&mut d, 0.0);
    push_vec3(&mut d, 0.0, 0.0, 0.0);
    d.push_u8(0);
    push_vec4(&mut d, 0.0, 0.0, 0.0, 0.0);
    push_f32(&mut d, 0.0);
    d.push_index(-1, 1);
    d.push_index(-1, 1);
    d.push_u8(4);  // outside the closed set
    let mut r = Reader::new(d.unwrap());
    assert_eq!(Material::parse(&mut r, &g).unwrap_err(), DecodeError::InvalidEnumValue);
}

#[test]
fn error_toon_mode_out_of_range() {
    let g = small_globals();
    let mut d = DataBlock::new();
    push_empty_string(&mut d);
    push_empty_string(&mut d);
    push_vec4(&mut d, 0.0, 0.0, 0.0, 0.0);
    push_vec3(&mut d, 0.0, 0.0, 0.0);
    push_f32(&mut d, 0.0);
    push_vec3(&mut d, 0.0, 0.0, 0.0);
    d.push_u8(0);
    push_vec4(&mut d, 0.0, 0.0, 0.0, 0.0);
    push_f32(&mut d, 0.0);
    d.push_index(-1, 1);
    d.push_index(-1, 1);
    d.push_u8(0);
    d.push_u8(2);  // outside the closed set
    let mut r = Reader::new(d.unwrap());
    assert_eq!(Material::parse(&mut r, &g).unwrap_err(), DecodeError::InvalidEnumValue);
}

#[test]
fn error_bone_weight_type_out_of_range() {
    let mut r = Reader::new(vec![5]);
    assert_eq!(BoneWeight::parse(&mut r, 2).unwrap_err(), DecodeError::InvalidEnumValue);
}

#[test]
fn error_morph_type_out_of_range() {
    let g = small_globals();
    let mut d = DataBlock::new();
    push_empty_string(&mut d);
    push_empty_string(&mut d);
    d.push_u8(0);
    d.push_u8(11);  // outside the closed set
    let mut r = Reader::new(d.unwrap());
    assert_eq!(Morph::parse(&mut r, &g).unwrap_err(), DecodeError::InvalidEnumValue);
}

#[test]
fn error_ik_link_bool_out_of_range() {
    let mut r = Reader::new(vec![0x00, 2]);
    assert_eq!(IKLink::parse(&mut r, 1).unwrap_err(), DecodeError::InvalidEnumValue);
}

#[test]
fn error_invalid_utf8_text() {
    let mut d = DataBlock::new();
    d.push_u32(1);
    d.push_u8(0xFF);
    let mut r = Reader::new(d.unwrap());
    assert_eq!(PmxString::parse(&mut r, 1).unwrap_err(), DecodeError::TextDecode);
}

#[test]
fn error_invalid_utf16_text() {
    let mut d = DataBlock::new();
    d.push_u32(2);
    d.push_bytes(&[0x00, 0xD8]);  // a lone high surrogate
    let mut r = Reader::new(d.unwrap());
    assert_eq!(PmxString::parse(&mut r, 0).unwrap_err(), DecodeError::TextDecode);
}

#[test]
fn error_truncated_string_length() {
    let mut r = Reader::new(vec![1, 2]);
    assert_eq!(PmxString::parse(&mut r, 1).unwrap_err(), DecodeError::Truncated);
}

// The string decoders really decode: the character count differs from the
// byte count under both encodings.
#[test]
fn string_decoding_not_identity() {
    let mut d = DataBlock::new();
    d.push_u32(4);
    d.push_bytes(&[0x41, 0x00, 0x42, 0x00]);  // "AB" in UTF-16LE
    let mut r = Reader::new(d.unwrap());
    let s = PmxString::parse(&mut r, 0).unwrap();
    assert_eq!(s.0, "AB");
    assert_eq!(s.0.chars().count(), 2);

    let mut d8 = DataBlock::new();
    d8.push_u32(2);
    d8.push_bytes(&[0xC3, 0xA9]);  // one two-byte UTF-8 character
    let mut r8 = Reader::new(d8.unwrap());
    let s8 = PmxString::parse(&mut r8, 1).unwrap();
    assert_eq!(s8.0.chars().count(), 1);
    assert_eq!(s8.0, "é");
}

// DataBlock appends bytes in call order.
#[test]
fn datablock_builds_in_order() {
    let mut d = DataBlock::new();
    d.push_u8(9);
    d.push_u32(0x01020304);
    d.push_i32(-2);
    d.push_bytes(&[7, 8]);
    assert_eq!(d.unwrap(), vec![9, 0x04, 0x03, 0x02, 0x01, 0xFE, 0xFF, 0xFF, 0xFF, 7, 8]);
}

// Each error variant carries its own description.
#[test]
fn error_descriptions_are_distinct() {
    let all = [
        DecodeError::Truncated,
        DecodeError::BadMagic,
        DecodeError::UnsupportedHeader,
        DecodeError::InvalidEnumValue,
        DecodeError::InvalidIndexWidth,
        DecodeError::TextDecode,
    ];
    for (i, a) in all.iter().enumerate() {
        assert!(!a.describe().is_empty());
        for (j, b) in all.iter().enumerate() {
            if i != j {
                assert_ne!(a.describe(), b.describe());
            }
        }
    }
    assert_eq!(DecodeError::Truncated.describe(), "unexpected end of input");
}
