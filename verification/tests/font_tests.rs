use xege::CharSet;
use xege::ClipPrecision;
use xege::Font;
use xege::FontFamily;
use xege::OutPrecision;
use xege::Pitch;
use xege::PitchAndFamily;
use xege::Quality;
use xege::Weight;

fn sample_font(name: &str) -> Font {
    Font {
        height: 24,
        width: 0,
        escapement: 0,
        orientation: 900,
        weight: Weight::Bold,
        italic: true,
        underline: false,
        strikeout: false,
        charset: CharSet::GB2312,
        outprecision: OutPrecision::TureType,
        clipprecision: ClipPrecision::StrokePrecis,
        quality: Quality::Antialiased,
        pitchandfamily: PitchAndFamily::new(Pitch::Variable, FontFamily::Roman),
        facename: name.to_string(),
    }
}

fn fonts_equal(a: &Font, b: &Font) -> bool {
    a.height == b.height
        && a.width == b.width
        && a.escapement == b.escapement
        && a.orientation == b.orientation
        && a.weight == b.weight
        && a.italic == b.italic
        && a.underline == b.underline
        && a.strikeout == b.strikeout
        && a.charset == b.charset
        && a.outprecision == b.outprecision
        && a.clipprecision == b.clipprecision
        && a.quality == b.quality
        && a.pitchandfamily == b.pitchandfamily
        && a.facename == b.facename
}

#[test]
fn font_roundtrip_ascii_name() {
    let f = sample_font("Courier New");
    let rec = f.to_record();
    let back = Font::from_record(&rec).unwrap();
    assert!(fonts_equal(&f, &back));
}

#[test]
fn font_roundtrip_wide_name() {
    let f = sample_font("宋体");
    let rec = f.to_record();
    let back = Font::from_record(&rec).unwrap();
    assert!(fonts_equal(&f, &back));
}

#[test]
fn font_roundtrip_supplementary_plane_name() {
    let f = sample_font("face𝔉name");
    let rec = f.to_record();
    let back = Font::from_record(&rec).unwrap();
    assert!(fonts_equal(&f, &back));
}

#[test]
fn font_roundtrip_default() {
    let f = Font::default();
    let rec = f.to_record();
    let back = Font::from_record(&rec).unwrap();
    assert!(fonts_equal(&f, &back));
}

#[test]
fn long_name_is_truncated_to_31_units() {
    let long = "a".repeat(40);
    let f = sample_font(&long);
    let rec = f.to_record();
    assert_eq!(rec.face_name.len(), 32);
    assert_eq!(rec.face_name[31], 0);
    assert!(rec.face_name[..31].iter().all(|&u| u == 'a' as u16));
    let back = Font::from_record(&rec).unwrap();
    assert_eq!(back.facename, "a".repeat(31));
}

#[test]
fn record_buffer_is_nul_padded() {
    let f = sample_font("ab");
    let rec = f.to_record();
    assert_eq!(rec.face_name.len(), 32);
    assert_eq!(rec.face_name[0], 'a' as u16);
    assert_eq!(rec.face_name[1], 'b' as u16);
    assert!(rec.face_name[2..].iter().all(|&u| u == 0));
}

#[test]
fn bad_component_codes_fail_to_decode() {
    let f = sample_font("x");
    let mut rec = f.to_record();
    rec.weight = 450;
    assert!(Font::from_record(&rec).is_none());
    let mut rec2 = f.to_record();
    rec2.quality = 9;
    assert!(Font::from_record(&rec2).is_none());
    let mut rec3 = f.to_record();
    rec3.charset = 3;
    assert!(Font::from_record(&rec3).is_none());
}

#[test]
fn lone_surrogate_in_name_fails_to_decode() {
    let f = sample_font("x");
    let mut rec = f.to_record();
    rec.face_name[0] = 0xD800;
    rec.face_name[1] = 0;
    assert!(Font::from_record(&rec).is_none());
}

#[test]
fn weight_codes() {
    assert_eq!(Weight::Dontcare.code(), 0);
    assert_eq!(Weight::Normal.code(), 400);
    assert_eq!(Weight::Black.code(), 900);
    assert_eq!(Weight::from_code(700), Some(Weight::Bold));
    assert_eq!(Weight::from_code(450), None);
}

#[test]
fn charset_codes() {
    assert_eq!(CharSet::Ansi.code(), 0);
    assert_eq!(CharSet::GB2312.code(), 134);
    assert_eq!(CharSet::OEM.code(), 255);
    assert_eq!(CharSet::from_code(136), Some(CharSet::ChineseBig5));
    assert_eq!(CharSet::from_code(50), None);
}

#[test]
fn pitch_and_family_mask() {
    let pf = PitchAndFamily::new(Pitch::Fixed, FontFamily::Modern);
    assert_eq!(pf.mask(), 0x31);
    assert_eq!(PitchAndFamily::from_mask(0x31), Some(pf));
    assert_eq!(PitchAndFamily::from_mask(3), None);
    assert_eq!(PitchAndFamily::default().mask(), 0);
}

#[test]
fn defaults() {
    assert_eq!(Weight::default(), Weight::Normal);
    assert_eq!(CharSet::default(), CharSet::Default);
    assert_eq!(OutPrecision::default(), OutPrecision::Default);
    assert_eq!(ClipPrecision::default(), ClipPrecision::DefaultPrecis);
    assert_eq!(Quality::default(), Quality::Default);
    assert_eq!(Pitch::default(), Pitch::Default);
}
