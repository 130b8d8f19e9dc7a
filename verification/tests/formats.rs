use drm_fourcc::{DrmFourcc, DrmModifier};
use wgpu_external_memory::formats::{
    FormatKey, FormatTable, ModifierProperties, ARGB8888, XRGB8888,
};
use wgpu_external_memory::imp::vulkan::Inner;

fn properties(modifier: u64, planes: u32, features: u32) -> ModifierProperties {
    ModifierProperties {
        drm_format_modifier: modifier,
        drm_format_modifier_plane_count: planes,
        drm_format_modifier_tiling_features: features,
    }
}

#[test]
fn format_codes_are_those_of_the_fourcc_crate() {
    assert_eq!(ARGB8888, DrmFourcc::Argb8888 as u32);
    assert_eq!(XRGB8888, DrmFourcc::Xrgb8888 as u32);
    assert_eq!(ARGB8888, 875713089);
    assert_eq!(XRGB8888, 875713112);
}

#[test]
fn empty_table_holds_nothing() {
    let table = FormatTable::new();
    assert_eq!(table.get(FormatKey { code: ARGB8888, modifier: 0 }), None);
}

#[test]
fn copied_table_holds_the_same_formats() {
    let table = FormatTable::from_modifiers(&vec![properties(1, 1, 10), properties(2, 2, 20)]);
    let copy = table.clone();
    for modifier in 0..4 {
        for code in [ARGB8888, XRGB8888, 0] {
            let key = FormatKey { code, modifier };
            assert_eq!(copy.get(key), table.get(key));
        }
    }
    assert_eq!(copy.get(FormatKey { code: ARGB8888, modifier: 2 }), Some(properties(2, 2, 20)));
}

#[test]
fn device_table_holds_each_modifier_under_both_formats() {
    let linear = u64::from(DrmModifier::Linear);
    let tiled = u64::from(DrmModifier::I915_x_tiled);
    let list = vec![properties(linear, 1, 7), properties(tiled, 1, 5)];
    let inner = Inner::new(&list);
    let table = &inner.supported_drm_formats;
    for code in [DrmFourcc::Argb8888 as u32, DrmFourcc::Xrgb8888 as u32] {
        assert_eq!(table.get(FormatKey { code, modifier: linear }), Some(properties(linear, 1, 7)));
        assert_eq!(table.get(FormatKey { code, modifier: tiled }), Some(properties(tiled, 1, 5)));
        assert_eq!(table.get(FormatKey { code, modifier: 12345 }), None);
    }
    assert_eq!(table.get(FormatKey { code: DrmFourcc::Abgr8888 as u32, modifier: linear }), None);
}

#[test]
fn later_report_of_a_modifier_stays() {
    let list = vec![properties(9, 1, 1), properties(4, 2, 2), properties(9, 3, 3)];
    let table = FormatTable::from_modifiers(&list);
    assert_eq!(table.get(FormatKey { code: ARGB8888, modifier: 9 }), Some(properties(9, 3, 3)));
    assert_eq!(table.get(FormatKey { code: XRGB8888, modifier: 9 }), Some(properties(9, 3, 3)));
    assert_eq!(table.get(FormatKey { code: XRGB8888, modifier: 4 }), Some(properties(4, 2, 2)));
}

#[test]
fn no_modifiers_give_an_empty_table() {
    let table = FormatTable::from_modifiers(&Vec::new());
    assert_eq!(table.get(FormatKey { code: ARGB8888, modifier: 0 }), None);
    assert_eq!(table.get(FormatKey { code: XRGB8888, modifier: 0 }), None);
}
