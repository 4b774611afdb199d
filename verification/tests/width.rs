use rename_rules::{to_hankaku, to_zenkaku};

#[test]
fn zenkaku_maps_ascii_to_full_width() {
    assert_eq!(to_zenkaku("A b!~"), "\u{FF21}\u{3000}\u{FF42}\u{FF01}\u{FF5E}");
    assert_eq!(to_zenkaku("abc123"), "ａｂｃ１２３");
}

#[test]
fn hankaku_maps_full_width_to_ascii() {
    assert_eq!(to_hankaku("\u{FF21}\u{3000}\u{FF42}\u{FF01}\u{FF5E}"), "A b!~");
    assert_eq!(to_hankaku("ａｂｃ１２３"), "abc123");
}

#[test]
fn zenkaku_uses_the_fixed_offset() {
    for code in 0x21u32..=0x7E {
        let narrow = char::from_u32(code).unwrap();
        let wide = char::from_u32(code + 0xFEE0).unwrap();
        assert_eq!(to_zenkaku(&narrow.to_string()), wide.to_string());
        assert_eq!(to_hankaku(&wide.to_string()), narrow.to_string());
    }
}

#[test]
fn space_maps_to_the_ideographic_space() {
    assert_eq!(to_zenkaku(" "), "\u{3000}");
    assert_eq!(to_hankaku("\u{3000}"), " ");
}

#[test]
fn other_characters_pass_through() {
    assert_eq!(to_zenkaku("名前\u{7F}\t\u{1F600}"), "名前\u{7F}\t\u{1F600}");
    assert_eq!(to_hankaku("名前\u{FF00}\u{FF5F}\u{1F600}"), "名前\u{FF00}\u{FF5F}\u{1F600}");
    assert_eq!(to_hankaku("plain ascii"), "plain ascii");
    assert_eq!(to_zenkaku(""), "");
    assert_eq!(to_hankaku(""), "");
}

#[test]
fn zenkaku_then_hankaku_is_the_identity_on_ascii() {
    let all: String = (0x20u32..=0x7E).map(|code| char::from_u32(code).unwrap()).collect();
    assert_eq!(to_hankaku(&to_zenkaku(&all)), all);
    assert_eq!(to_hankaku(&to_zenkaku("Hello, World! 123")), "Hello, World! 123");
}

#[test]
fn hankaku_then_zenkaku_is_the_identity_on_full_width() {
    let mut all = String::from("\u{3000}");
    for code in 0xFF01u32..=0xFF5E {
        all.push(char::from_u32(code).unwrap());
    }
    assert_eq!(to_zenkaku(&to_hankaku(&all)), all);
}

#[test]
fn converting_twice_changes_nothing_more() {
    let mixed = "Ab1 ＡＢ１\u{3000}名前";
    assert_eq!(to_zenkaku(&to_zenkaku(mixed)), to_zenkaku(mixed));
    assert_eq!(to_hankaku(&to_hankaku(mixed)), to_hankaku(mixed));
}

#[test]
fn conversions_keep_the_number_of_characters() {
    let mixed = "Ab1 ＡＢ１\u{3000}名前";
    assert_eq!(to_zenkaku(mixed).chars().count(), mixed.chars().count());
    assert_eq!(to_hankaku(mixed).chars().count(), mixed.chars().count());
}
