use liege::atlas::SpriteSheet;
use liege::json::deserialize_json;
use liege::visibility::{in_view, is_object_in_view, is_sprite_in_view, ViewBounds};

fn sprite_json(x: i32, y: i32) -> String {
    format!(
        "{{\"frame\":{{\"x\":{},\"y\":{},\"w\":9,\"h\":9}},\"rotated\":false,\
         \"trimmed\":true,\"spriteSourceSize\":{{\"x\":0,\"y\":0,\"w\":9,\"h\":9}},\
         \"sourceSize\":{{\"w\":9,\"h\":9}}}}",
        x, y
    )
}

#[test]
fn test_read_and_deserialize() {
    // The rogue atlas text, with the frame the original checks at its
    // known pixel column.
    let json = format!(
        "{{\"frames\":{{\"rogue_attack_left_1.png\":{},\"rogue_attack_left_2.png\":{}}},\
         \"meta\":{{\"app\":\"packer\",\"size\":{{\"w\":128,\"h\":128}}}}}}",
        sprite_json(26, 52),
        sprite_json(35, 52)
    );
    let deserialized_content = match deserialize_json(&json) {
        Ok(content) => content,
        Err(e) => panic!("Failed to deserialize: {:?}", e),
    };
    assert!(!deserialized_content.frames.is_empty(), "Frames hashmap should not be empty");

    let sprite = deserialized_content
        .get(&"rogue_attack_left_1.png".to_string())
        .expect("frame should be present");
    assert_eq!(sprite.frame.x, 26);
}

#[test]
fn test_parse_fields_any_order_and_flags() {
    let json = "{\"frames\":{\"a.png\":{\"sourceSize\":{\"h\":7,\"w\":5},\"rotated\":true,\
                \"frame\":{\"h\":4,\"w\":3,\"y\":2,\"x\":1},\"trimmed\":false,\
                \"spriteSourceSize\":{\"x\":0,\"y\":0,\"w\":3,\"h\":4}}}}";
    let sheet = deserialize_json(json).expect("valid atlas");
    let s = sheet.get(&"a.png".to_string()).expect("present");
    assert_eq!(s.frame.x, 1);
    assert_eq!(s.frame.y, 2);
    assert_eq!(s.frame.w, 3);
    assert_eq!(s.frame.h, 4);
    assert!(s.rotated);
    assert!(!s.trimmed);
    assert_eq!(s.source_size.w, 5);
    assert_eq!(s.source_size.h, 7);
}

#[test]
fn test_parse_negative_coordinates() {
    let json = format!("{{\"frames\":{{\"n.png\":{}}}}}", sprite_json(-3, -14));
    let sheet = deserialize_json(&json).expect("valid atlas");
    let s = sheet.get(&"n.png".to_string()).expect("present");
    assert_eq!(s.frame.x, -3);
    assert_eq!(s.frame.y, -14);
}

#[test]
fn test_parse_duplicate_name_last_wins() {
    let json = format!(
        "{{\"frames\":{{\"d.png\":{},\"d.png\":{}}}}}",
        sprite_json(1, 1),
        sprite_json(9, 9)
    );
    let sheet = deserialize_json(&json).expect("valid atlas");
    let s = sheet.get(&"d.png".to_string()).expect("present");
    assert_eq!(s.frame.x, 9);
}

#[test]
fn test_parse_rejects_missing_frames_member() {
    assert!(deserialize_json("{\"meta\":{}}").is_err());
    assert!(deserialize_json("{}").is_err());
}

#[test]
fn test_parse_rejects_malformed_documents() {
    // A required sprite member is absent.
    let no_rotated = "{\"frames\":{\"a.png\":{\"frame\":{\"x\":1,\"y\":2,\"w\":3,\"h\":4},\
                      \"trimmed\":false,\"spriteSourceSize\":{\"x\":0,\"y\":0,\"w\":3,\"h\":4},\
                      \"sourceSize\":{\"w\":5,\"h\":7}}}}";
    assert!(deserialize_json(no_rotated).is_err());
    // A duplicate member of one sprite.
    let dup = "{\"frames\":{\"a.png\":{\"rotated\":true,\"rotated\":false,\
         \"trimmed\":false,\"frame\":{\"x\":1,\"y\":2,\"w\":3,\"h\":4},\
         \"spriteSourceSize\":{\"x\":0,\"y\":0,\"w\":3,\"h\":4},\
         \"sourceSize\":{\"w\":5,\"h\":7}}}}";
    assert!(deserialize_json(dup).is_err());
    // A coordinate beyond the pixel range.
    let json = format!("{{\"frames\":{{\"a.png\":{}}}}}", sprite_json(1, 1));
    let too_big = json.replace("\"x\":1", "\"x\":4294967296");
    assert!(deserialize_json(&too_big).is_err());
    // Structural damage.
    assert!(deserialize_json("").is_err());
    assert!(deserialize_json("{\"frames\":{").is_err());
    assert!(deserialize_json("[1,2]").is_err());
    assert!(deserialize_json("{\"frames\":{}} trailing").is_err());
    // Escapes are not part of the atlas format.
    assert!(deserialize_json("{\"fra\\u006des\":{}}").is_err());
    // Non-ASCII text is rejected.
    assert!(deserialize_json("{\"frames\":{}}\u{00e9}").is_err());
}

#[test]
fn test_empty_frames_map_is_valid() {
    let sheet = deserialize_json("{\"frames\":{}}").expect("valid atlas");
    assert!(sheet.frames.is_empty());
    assert!(sheet.get(&"missing.png".to_string()).is_none());
}

#[test]
fn test_output_size_scales_and_truncates() {
    let json = format!("{{\"frames\":{{\"a.png\":{}}}}}", sprite_json(0, 0));
    let sheet = deserialize_json(&json).expect("valid atlas");
    let s = sheet.get(&"a.png".to_string()).expect("present");
    // 9 pixels at a 2.5 scale: 22.5, truncated to 22 milli-unit-scaled.
    assert_eq!(SpriteSheet::output_size(&s, 2500, 2500), (22, 22));
    assert_eq!(SpriteSheet::output_size(&s, 1000, 3000), (9, 27));
}

#[test]
fn test_in_view_bounds() {
    let view = ViewBounds { target_x: 0, target_y: 0, half_width: 100, half_height: 50 };
    // Inside.
    assert!(in_view(0, 0, &view, 20, 20));
    // The left edge is inflated by the margin; the right edge is not.
    assert!(in_view(-110, 0, &view, 20, 20));
    assert!(!in_view(-120, 0, &view, 20, 20));
    assert!(!in_view(100, 0, &view, 20, 20));
    assert!(in_view(99, 0, &view, 20, 20));
    // The top edge is inflated; the bottom is not.
    assert!(in_view(0, -60, &view, 20, 20));
    assert!(!in_view(0, 50, &view, 20, 20));
    assert!(is_object_in_view(0, 0, &view, 20, 20));
    assert!(is_sprite_in_view(0, 0, &view, 22, 22));
    assert!(!is_sprite_in_view(500, 500, &view, 22, 22));
}
