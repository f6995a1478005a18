use ffmpeg_util::space::{Space, SPC_NB};

const ALL: &[Space] = &[
    Space::RGB,
    Space::BT709,
    Space::Unspecified,
    Space::Reserved,
    Space::FCC,
    Space::BT470BG,
    Space::SMPTE170M,
    Space::SMPTE240M,
    Space::YCGCO,
    Space::BT2020NCL,
    Space::BT2020CL,
    Space::SMPTE2085,
    Space::ChromaDerivedNCL,
    Space::ChromaDerivedCL,
    Space::ICTCP,
];

#[test]
fn native_codes_are_ffmpeg_values() {
    assert_eq!(Space::RGB.to_native(), 0);
    assert_eq!(Space::BT709.to_native(), 1);
    assert_eq!(Space::Unspecified.to_native(), 2);
    assert_eq!(Space::BT2020NCL.to_native(), 9);
    assert_eq!(Space::SMPTE2085.to_native(), 11);
    assert_eq!(Space::ICTCP.to_native(), 14);
}

#[test]
fn every_code_but_sentinel_round_trips() {
    for code in 0..SPC_NB {
        assert_eq!(Space::from_native(code).to_native(), code);
    }
}

#[test]
fn sentinel_reads_as_unspecified() {
    assert_eq!(Space::from_native(SPC_NB), Space::Unspecified);
    assert_ne!(Space::from_native(SPC_NB).to_native(), SPC_NB);
}

#[test]
fn every_variant_round_trips() {
    for &space in ALL {
        assert_eq!(Space::from_native(space.to_native()), space);
    }
}

#[test]
fn native_codes_are_distinct() {
    for &a in ALL {
        for &b in ALL {
            assert_eq!(a == b, a.to_native() == b.to_native());
        }
    }
}

#[test]
fn from_native_picks_named_variant() {
    assert_eq!(Space::from_native(5), Space::BT470BG);
    assert_eq!(Space::from_native(12), Space::ChromaDerivedNCL);
    assert_eq!(Space::from_native(13), Space::ChromaDerivedCL);
}
