use raytrace_core::binding::{LayoutBindingType, ViewDimension, STAGE_COMPUTE, STAGE_FRAGMENT};
use raytrace_core::pipeline::{
    binding_set, pipeline_sets, BindingSet, Pipeline, CAMERA_BUFFER, COLOR_BUFFER, DENOISE_PASS_BUFFER, HISTORY_BUFFER,
    REFERENCE_CAMERA_BUFFER,
};

#[test]
fn every_binding_set_has_a_layout() {
    let sets = [
        BindingSet::ShaderConfig,
        BindingSet::Raytracing,
        BindingSet::Camera,
        BindingSet::Objects,
        BindingSet::TexturesAndMaterials,
        BindingSet::Bvh,
        BindingSet::Denoising,
        BindingSet::ScreenTransfer,
    ];
    for set in sets {
        let d = binding_set(set);
        let layout = d.generate_bind_group_layout().unwrap();
        assert_eq!(layout.len(), d.bindings.len());
        let numbers: Vec<u32> = d.bind_group_entries().iter().map(|e| e.binding).collect();
        assert_eq!(numbers, (0..layout.len() as u32).collect::<Vec<u32>>());
    }
}

#[test]
fn denoise_set_reads_both_cameras() {
    let d = binding_set(BindingSet::Denoising);
    assert_eq!(d.label.as_deref(), Some("denoising"));
    assert_eq!(d.vis.bits, STAGE_COMPUTE);
    let tys: Vec<LayoutBindingType> = d.generate_bind_group_layout().unwrap().iter().map(|e| e.ty).collect();
    assert_eq!(
        tys,
        vec![
            LayoutBindingType::ReadWriteStorageTexture(ViewDimension::D2),
            LayoutBindingType::ReadWriteStorageTexture(ViewDimension::D2),
            LayoutBindingType::UniformBuffer,
            LayoutBindingType::UniformBuffer,
            LayoutBindingType::UniformBuffer
        ]
    );
    let resources: Vec<usize> = d.bind_group_entries().iter().map(|e| e.resource).collect();
    assert_eq!(resources, vec![COLOR_BUFFER, HISTORY_BUFFER, CAMERA_BUFFER, REFERENCE_CAMERA_BUFFER, DENOISE_PASS_BUFFER]);
}

#[test]
fn screen_set_is_for_the_fragment_stage() {
    let d = binding_set(BindingSet::ScreenTransfer);
    assert_eq!(d.vis.bits, STAGE_FRAGMENT);
    let layout = d.generate_bind_group_layout().unwrap();
    assert_eq!(layout[0].ty, LayoutBindingType::FilteringSampler);
    assert_eq!(layout[1].ty, LayoutBindingType::SampledTexture(ViewDimension::D2));
}

#[test]
fn pipelines_bind_their_sets_in_order() {
    assert_eq!(
        pipeline_sets(Pipeline::RayTracing),
        vec![
            BindingSet::ShaderConfig,
            BindingSet::Raytracing,
            BindingSet::Camera,
            BindingSet::Objects,
            BindingSet::TexturesAndMaterials,
            BindingSet::Bvh
        ]
    );
    assert_eq!(pipeline_sets(Pipeline::Denoise), vec![BindingSet::Denoising, BindingSet::ShaderConfig]);
    assert_eq!(pipeline_sets(Pipeline::Screen), vec![BindingSet::ScreenTransfer]);
}
