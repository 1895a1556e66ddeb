use bevy_pieces::gpu::{
    plan_texture, plan_texture_for_format, plan_view, take_gpu_copy, CopyLayout, TexturePlan,
    ViewPlan,
};
use wgpu_types::TextureFormat;

#[test]
fn gpu_copy_uploads_when_there_is_something_new() {
    let mut data = Some(vec![1u8, 2]);
    assert_eq!(take_gpu_copy(&mut data, Some(true)), Some(Some(vec![1u8, 2])));
    assert_eq!(data, None);
    let mut none: Option<Vec<u8>> = None;
    assert_eq!(take_gpu_copy(&mut none, Some(true)), None);
    assert_eq!(take_gpu_copy(&mut none, Some(false)), Some(None));
    assert_eq!(take_gpu_copy(&mut none, None), Some(None));
}

#[test]
fn texture_plans() {
    assert_eq!(
        plan_texture(true, Some(8), (4, 4), true, 64, 32),
        TexturePlan::ReuseAndWrite(CopyLayout { bytes_per_row: 128, rows_per_image: 8 })
    );
    assert_eq!(plan_texture(true, Some(8), (4, 4), false, 64, 32), TexturePlan::Reuse);
    assert_eq!(plan_texture(true, None, (1, 1), true, 64, 32), TexturePlan::CreateWithData);
    assert_eq!(plan_texture(false, Some(4), (1, 1), false, 64, 32), TexturePlan::CreateEmpty);
}

#[test]
fn texture_plans_from_formats() {
    assert_eq!(
        plan_texture_for_format(TextureFormat::Rgba8Unorm, true, true, 10, 3),
        Some(TexturePlan::ReuseAndWrite(CopyLayout { bytes_per_row: 40, rows_per_image: 3 }))
    );
    assert_eq!(
        plan_texture_for_format(TextureFormat::Bc1RgbaUnorm, true, true, 64, 64),
        Some(TexturePlan::ReuseAndWrite(CopyLayout { bytes_per_row: 128, rows_per_image: 16 }))
    );
    assert_eq!(
        plan_texture_for_format(TextureFormat::Depth24Plus, true, true, 64, 64),
        Some(TexturePlan::CreateWithData)
    );
    assert_eq!(
        plan_texture_for_format(TextureFormat::Rgba32Float, true, true, u32::MAX, 1),
        None
    );
}

#[test]
fn view_plans() {
    assert_eq!(plan_view(true, true, true), ViewPlan::Reuse);
    assert_eq!(plan_view(true, false, true), ViewPlan::FromDescriptor);
    assert_eq!(plan_view(true, false, false), ViewPlan::Default);
    assert_eq!(plan_view(false, true, true), ViewPlan::FromDescriptor);
    assert_eq!(plan_view(false, true, false), ViewPlan::Default);
}
