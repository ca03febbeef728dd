use encoding::{EncoderTrap, Encoding};
use pmx::datablock::DataBlock;
use pmx::globals::{Globals, Header};
use pmx::pmxstring::PmxString;
use pmx::reader::Reader;
use pmx::vecs::{Vec2, Vec3, Vec4};
use pmx::vertex::{BoneWeight, Vertex};

fn utf16_block(s: &str) -> Vec<u8> {
    let bytes = encoding::all::UTF_16LE.encode(s, EncoderTrap::Strict).unwrap();
    let mut out = Vec::new();
    out.extend_from_slice(&(bytes.len() as u32).to_le_bytes());
    out.extend_from_slice(&bytes);
    out
}

#[test]
fn test_header() {
    let version = 2.0f32;
    let num_globals = 8u8;
    let globals = [0x00u8, 0x00u8, 0x02u8, 0x01u8, 0x01u8, 0x02u8, 0x02u8, 0x02u8];

    let model_name = PmxString(String::from("モデル名前"));
    let model_name_en = PmxString(String::from("Model Name"));
    let comment = PmxString(String::from("コメント"));
    let comment_en = PmxString(String::from("Comment"));

    let mut data = DataBlock::new();
    data.push_bytes("PMX ".as_bytes());
    data.push_u32(version.to_bits());
    data.push_u8(num_globals);
    data.push_bytes(&globals[..]);
    data.push_bytes(&utf16_block("モデル名前"));
    data.push_bytes(&utf16_block("Model Name"));
    data.push_bytes(&utf16_block("コメント"));
    data.push_bytes(&utf16_block("Comment"));

    let h = Header {
        version: version.to_bits(),
        globals: Globals::from_bytes(&globals[..]),
        model_name,
        model_name_en,
        comment,
        comment_en,
    };

    let mut r = Reader::new(data.unwrap());
    let header = Header::parse(&mut r).unwrap();

    assert_eq!(header, h);
}

#[test]
fn test_vertex() {
    let zero = 0.0f32.to_bits();
    let one = 1.0f32.to_bits();
    let pos = Vec3 { x: zero, y: zero, z: one };
    let normal = Vec3 { x: zero, y: one, z: zero };
    let uv = Vec2 { x: one, y: zero };
    let additional = vec![Vec4 { x: zero, y: zero, z: zero, w: one }];
    let indices = [111i32, 999i32];
    let weight = 0.4f32;
    let edge_scale = 9.9f32;

    let mut data = DataBlock::new();
    for f in [0.0f32, 0.0, 1.0] {
        data.push_u32(f.to_bits());
    }
    for f in [0.0f32, 1.0, 0.0] {
        data.push_u32(f.to_bits());
    }
    for f in [1.0f32, 0.0] {
        data.push_u32(f.to_bits());
    }
    for f in [0.0f32, 0.0, 0.0, 1.0] {
        data.push_u32(f.to_bits());
    }
    data.push_u8(1);
    data.push_i32(indices[0]);
    data.push_i32(indices[1]);
    data.push_u32(weight.to_bits());
    data.push_u32(edge_scale.to_bits());

    let additional_n = 1u8;
    let bone_idx_size = 4u8;
    let g = Globals {
        encoding: 0,
        additional: additional_n,
        vertex_index_size: 2,
        texture_index_size: 1,
        material_index_size: 1,
        bone_index_size: bone_idx_size,
        morph_index_size: 2,
        rigidbody_index_size: 2,
    };
    let mut r = Reader::new(data.unwrap());
    let vertex = Vertex::parse(&mut r, &g).unwrap();
    assert_eq!(
        vertex,
        Vertex {
            position: pos,
            normal,
            uv,
            additional,
            bone_weight: BoneWeight::BDEF2 {
                index0: indices[0],
                index1: indices[1],
                weight: weight.to_bits(),
            },
            edge_scale: edge_scale.to_bits(),
        }
    );
}

#[test]
fn test_vec() {
    let arr = [1.1f32, 2.2f32, 3.3f32, 4.4f32];
    let v2 = [arr[0], arr[1]];
    let v3 = [arr[0], arr[1], arr[2]];
    let v4 = arr;
    let mut data = DataBlock::new();
    for f in arr {
        data.push_u32(f.to_bits());
    }
    let raw = data.unwrap();

    let mut r2 = Reader::new(raw[0..2 * 4].to_vec());
    let got2 = Vec2::parse(&mut r2).unwrap();
    assert_eq!(got2, Vec2 { x: v2[0].to_bits(), y: v2[1].to_bits() });
    assert_eq!(r2.pos(), 8);

    let mut r3 = Reader::new(raw[0..3 * 4].to_vec());
    let got3 = Vec3::parse(&mut r3).unwrap();
    assert_eq!(got3, Vec3 { x: v3[0].to_bits(), y: v3[1].to_bits(), z: v3[2].to_bits() });
    assert_eq!(r3.pos(), 12);

    let mut r4 = Reader::new(raw[0..4 * 4].to_vec());
    let got4 = Vec4::parse(&mut r4).unwrap();
    assert_eq!(
        got4,
        Vec4 { x: v4[0].to_bits(), y: v4[1].to_bits(), z: v4[2].to_bits(), w: v4[3].to_bits() }
    );
    assert_eq!(r4.pos(), 16);
}
