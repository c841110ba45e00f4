use zip_compression::CompressionMethod;

fn methods() -> Vec<CompressionMethod> {
    let mut methods = Vec::new();
    methods.push(CompressionMethod::Stored);
    methods.push(CompressionMethod::Deflated);
    methods.push(CompressionMethod::Bzip2);
    methods
}

#[test]
fn from_eq_to() {
    for v in 0..(u16::MAX as u32 + 1) {
        let from = CompressionMethod::from_u16(v as u16);
        let to = from.to_u16() as u32;
        assert_eq!(v, to);
    }
}

#[test]
fn to_eq_from() {
    for method in methods() {
        let to = method.to_u16();
        let from = CompressionMethod::from_u16(to);
        let back = from.to_u16();
        assert_eq!(to, back);
    }
}

#[test]
fn to_display_fmt() {
    for method in methods() {
        let debug_str = format!("{:?}", method);
        let display_str = method.render();
        assert_eq!(debug_str, display_str);
    }
}

#[test]
fn decode_known_codes() {
    assert_eq!(CompressionMethod::from_u16(0), CompressionMethod::Stored);
    assert_eq!(CompressionMethod::Stored.to_u16(), 0);
    assert_eq!(CompressionMethod::from_u16(8), CompressionMethod::Deflated);
    assert_eq!(CompressionMethod::Deflated.to_u16(), 8);
    assert_eq!(CompressionMethod::from_u16(12), CompressionMethod::Bzip2);
    assert_eq!(CompressionMethod::Bzip2.to_u16(), 12);
}

#[test]
fn known_codes_distinct() {
    let stored = CompressionMethod::Stored.to_u16();
    let deflated = CompressionMethod::Deflated.to_u16();
    let bzip2 = CompressionMethod::Bzip2.to_u16();
    assert_ne!(stored, deflated);
    assert_ne!(stored, bzip2);
    assert_ne!(deflated, bzip2);
}

#[test]
fn unsupported_pass_through() {
    for code in [7u16, 99, 65535] {
        assert_eq!(
            CompressionMethod::from_u16(code),
            CompressionMethod::Unsupported(code)
        );
        assert_eq!(CompressionMethod::Unsupported(code).to_u16(), code);
        assert_eq!(CompressionMethod::from_u16(code).to_u16(), code);
    }
}

#[test]
fn render_named_variants() {
    assert_eq!(CompressionMethod::Stored.render(), "Stored");
    assert_eq!(CompressionMethod::Deflated.render(), "Deflated");
    assert_eq!(CompressionMethod::Bzip2.render(), "Bzip2");
}

#[test]
fn render_unsupported_contains_code() {
    let m = CompressionMethod::from_u16(99);
    let text = m.render();
    assert_eq!(text, "Unsupported(99)");
    assert!(text.contains("99"));
    assert_eq!(format!("{:?}", m), text);
}

#[test]
fn render_unsupported_edge_codes() {
    assert_eq!(
        CompressionMethod::Unsupported(0).render(),
        "Unsupported(0)"
    );
    assert_eq!(
        CompressionMethod::Unsupported(7).render(),
        "Unsupported(7)"
    );
    assert_eq!(
        CompressionMethod::Unsupported(65535).render(),
        "Unsupported(65535)"
    );
    assert_eq!(
        format!("{:?}", CompressionMethod::Unsupported(65535)),
        CompressionMethod::Unsupported(65535).render()
    );
}
