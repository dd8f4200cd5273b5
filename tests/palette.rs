use sema::color::{oklch, Color};
use sema::palette::{lerp, BaseScale, LightnessRange, Palette};

const SCALE: [BaseScale; 7] = [
    BaseScale::Bg,
    BaseScale::LightBg,
    BaseScale::LighterBg,
    BaseScale::DarkFg,
    BaseScale::DimFg,
    BaseScale::Fg,
    BaseScale::BrightFg,
];

fn presets() -> Vec<Palette> {
    vec![
        Palette::default(),
        Palette::chroma(),
        Palette::soft(),
        Palette::soft_chroma(),
        Palette::light(),
        Palette::light_chroma(),
        Palette::light_soft(),
        Palette::light_soft_chroma(),
    ]
}

fn color(lightness: u64, chroma: u64, hue: u32) -> Color {
    Color { lightness, chroma, hue }
}

#[test]
fn default_lighter_bg_is_interpolated() {
    let c = Palette::default().base(BaseScale::LighterBg);
    assert_eq!(c, color(377_500, 0, 0));
    let as_float = c.lightness as f64 / 1_000_000.0;
    assert!((as_float - (0.25 * (1.0 - 0.17) + 0.17)).abs() < 1e-12);
}

#[test]
fn chroma_pink() {
    assert_eq!(Palette::chroma().pink(), color(860_000, 60_000, 0));
}

#[test]
fn light_base_range_is_reversed() {
    let p = Palette::light();
    assert_eq!(p.base(BaseScale::Bg).lightness, 1_000_000);
    assert_eq!(p.base(BaseScale::BrightFg).lightness, 200_000);
    assert!(p.base(BaseScale::Bg).lightness > p.base(BaseScale::BrightFg).lightness);
}

#[test]
fn semantic_colors_follow_the_table() {
    for p in presets() {
        let hl = p.high_lightness as u64 * 100;
        let ll = p.low_lightness as u64 * 100;
        let lc = p.low_chroma as u64 * 100;
        let mc = p.medium_chroma as u64 * 100;
        let hc = p.high_chroma as u64 * 100;
        assert_eq!(p.pink(), color(hl, lc, 0));
        assert_eq!(p.red(), color(ll, hc, 30));
        assert_eq!(p.yellow(), color(hl, lc, 105));
        assert_eq!(p.green(), color(hl, mc, 130));
        assert_eq!(p.light_green(), color(hl, lc, 130));
        assert_eq!(p.blue(), color(ll, hc, 230));
        assert_eq!(p.light_blue(), color(hl, lc, 240));
        assert_eq!(p.lavender(), color(hl, lc, 285));
        assert_eq!(p.magenta(), color(ll, hc, 330));
    }
}

#[test]
fn default_semantic_colors_exact() {
    let p = Palette::default();
    assert_eq!(p.red(), color(800_000, 100_000, 30));
    assert_eq!(p.green(), color(900_000, 70_000, 130));
    assert_eq!(p.light_blue(), color(900_000, 32_000, 240));
}

#[test]
fn light_chroma_semantic_colors_exact() {
    let p = Palette::light_chroma();
    assert_eq!(p.magenta(), color(650_000, 120_000, 330));
    assert_eq!(p.green(), color(550_000, 100_000, 130));
    assert_eq!(p.lavender(), color(550_000, 90_000, 285));
}

#[test]
fn base_ends_match_range_for_every_preset() {
    for p in presets() {
        let r = p.base_lightness_range;
        assert_eq!(p.base(BaseScale::Bg), color(r.start as u64 * 100, 0, 0));
        assert_eq!(p.base(BaseScale::BrightFg), color(r.end as u64 * 100, 0, 0));
    }
}

#[test]
fn base_is_monotonic_along_the_scale() {
    for p in presets() {
        let r = p.base_lightness_range;
        for w in SCALE.windows(2) {
            let a = p.base(w[0]).lightness;
            let b = p.base(w[1]).lightness;
            if r.start < r.end {
                assert!(a < b);
            } else {
                assert!(a > b);
            }
        }
    }
}

#[test]
fn repeated_calls_agree() {
    for p in presets() {
        for s in SCALE {
            assert_eq!(p.base(s), p.base(s));
        }
        assert_eq!(p.pink(), p.pink());
        assert_eq!(p.magenta(), p.magenta());
        assert_eq!(p.light_green(), p.light_green());
    }
}

#[test]
fn scale_positions() {
    let got: Vec<u32> = SCALE.iter().map(|s| s.value()).collect();
    assert_eq!(got, vec![0, 10, 25, 35, 60, 85, 100]);
}

#[test]
fn default_base_scale_exact() {
    let p = Palette::default();
    let got: Vec<u64> = SCALE.iter().map(|s| p.base(*s).lightness).collect();
    assert_eq!(got, vec![170_000, 253_000, 377_500, 460_500, 668_000, 875_500, 1_000_000]);
}

#[test]
fn light_soft_base_scale_exact() {
    let p = Palette::light_soft();
    assert_eq!(p.base(BaseScale::Bg).lightness, 960_000);
    assert_eq!(p.base(BaseScale::DimFg).lightness, 960_000 - 60 * 6_600);
    assert_eq!(p.base(BaseScale::BrightFg).lightness, 300_000);
}

#[test]
fn lerp_exact_values() {
    assert_eq!(lerp(25, LightnessRange { start: 1700, end: 10000 }), 377_500);
    assert_eq!(lerp(50, LightnessRange { start: 10000, end: 2000 }), 600_000);
    assert_eq!(lerp(0, LightnessRange { start: 3, end: 9 }), 300);
    assert_eq!(lerp(100, LightnessRange { start: 9, end: 3 }), 300);
    assert_eq!(lerp(100, LightnessRange { start: u32::MAX, end: 0 }), 0);
    assert_eq!(lerp(0, LightnessRange { start: u32::MAX, end: 0 }), u32::MAX as u64 * 100);
}

#[test]
fn presets_compose_overrides() {
    let d = Palette::default();
    let c = Palette::chroma();
    assert_eq!(d.base_lightness_range, LightnessRange { start: 1700, end: 10000 });
    assert_eq!((c.low_chroma, c.medium_chroma, c.high_chroma, c.high_lightness), (600, 900, 1100, 8600));
    assert_eq!((c.base_lightness_range, c.low_lightness), (d.base_lightness_range, d.low_lightness));
    let soft_range = LightnessRange { start: 2500, end: 9500 };
    assert_eq!(Palette::soft(), Palette { base_lightness_range: soft_range, ..d });
    assert_eq!(Palette::soft_chroma(), Palette { base_lightness_range: soft_range, ..c });
    let l = Palette::light();
    let lc = Palette::light_chroma();
    assert_eq!(lc, Palette { low_chroma: 900, medium_chroma: 1000, high_chroma: 1200, ..l });
    let light_soft_range = LightnessRange { start: 9600, end: 3000 };
    assert_eq!(Palette::light_soft(), Palette { base_lightness_range: light_soft_range, ..l });
    assert_eq!(Palette::light_soft_chroma(), Palette { base_lightness_range: light_soft_range, ..lc });
}

#[test]
fn oklch_keeps_its_arguments() {
    assert_eq!(oklch(1, 2, 360), color(1, 2, 360));
}
