use vstd::prelude::*;

verus! {

/// Runtime parameters of the ray-generation and denoise shaders, as the GPU
/// reads them. Fields of type `u32` are `f32` bit patterns.
#[derive(Clone, Copy, Debug, PartialEq, Eq, Structural)]
pub struct ShaderConfig {
    // ray generation
    pub ray_max_bounces: i32,
    pub ray_samples_per_pixel: i32,
    pub ray_max_ray_distance: u32,
    // lens
    pub ray_focus_distance: u32,
    pub ray_aperture: u32,
    pub ray_lens_radius: u32,
    // debug switches, 0 or 1
    pub ray_debug_rand_color: i32,
    pub ray_focus_viewer_visible: i32,
    pub ray_debug_bvh_bounding_box: i32,
    pub ray_debug_bvh_bounding_color: i32,
    // denoise algorithm of the first and the second pass
    pub first_pass: i32,
    pub second_pass: i32,
    // temporal filter
    pub temporal_basic_low_threshold: u32,
    pub temporal_basic_high_threshold: u32,
    pub temporal_basic_low_blend_factor: u32,
    pub temporal_basic_high_blend_factor: u32,
    // adaptive temporal filter
    pub temporal_adaptive_motion_threshold: u32,
    pub temporal_adaptive_direction_threshold: u32,
    pub temporal_adaptive_low_threshold: u32,
    pub temporal_adaptive_high_threshold: u32,
    pub temporal_adaptive_low_blend_factor: u32,
    pub temporal_adaptive_high_blend_factor: u32,
    // spatial, bilateral and non-local-means filters
    pub spatial_kernel_size: i32,
    pub spatial_bilat_space_sigma: u32,
    pub spatial_bilat_color_sigma: u32,
    pub spatial_bilat_radius: i32,
    pub spatial_den_cormpare_radius: i32,
    pub spatial_den_patch_radius: i32,
    pub spatial_den_significant_weight: u32,
}

impl ShaderConfig {
    pub open spec fn spec_default() -> ShaderConfig {
        ShaderConfig {
            ray_max_bounces: 10i32,
            ray_samples_per_pixel: 1i32,
            ray_max_ray_distance: 0x461c_4000u32,
            ray_focus_distance: 0x4020_0000u32,
            ray_aperture: 0x3ba3_d70au32,
            ray_lens_radius: 0u32,
            ray_debug_rand_color: 0i32,
            ray_focus_viewer_visible: 0i32,
            ray_debug_bvh_bounding_box: 0i32,
            ray_debug_bvh_bounding_color: 0i32,
            first_pass: 4i32,
            second_pass: 2i32,
            temporal_basic_low_threshold: 0x3d4c_cccdu32,
            temporal_basic_high_threshold: 0x3e4c_cccdu32,
            temporal_basic_low_blend_factor: 0x3cf5_c28fu32,
            temporal_basic_high_blend_factor: 0x3e4c_cccdu32,
            temporal_adaptive_motion_threshold: 0x3ba3_d70au32,
            temporal_adaptive_direction_threshold: 0x3c23_d70au32,
            temporal_adaptive_low_threshold: 0x3d4c_cccdu32,
            temporal_adaptive_high_threshold: 0x3e4c_cccdu32,
            temporal_adaptive_low_blend_factor: 0x3cf5_c28fu32,
            temporal_adaptive_high_blend_factor: 0x3e4c_cccdu32,
            spatial_kernel_size: 3i32,
            spatial_bilat_space_sigma: 0x42c8_0000u32,
            spatial_bilat_color_sigma: 0x41a0_0000u32,
            spatial_bilat_radius: 3i32,
            spatial_den_cormpare_radius: 13i32,
            spatial_den_patch_radius: 5i32,
            spatial_den_significant_weight: 0x3a83_126fu32,
        }
    }

    /// Ten bounces, one sample per pixel, a 10000 ray distance, the lens at
    /// 2.5 with a 0.005 aperture, no debug views, and the adaptive temporal
    /// filter followed by the bilateral one with their tuned parameters.
    pub fn default() -> (r: ShaderConfig)
        ensures
            r == ShaderConfig::spec_default(),
    {
        ShaderConfig {
            ray_max_bounces: 10i32,
            ray_samples_per_pixel: 1i32,
            ray_max_ray_distance: 0x461c_4000u32,
            ray_focus_distance: 0x4020_0000u32,
            ray_aperture: 0x3ba3_d70au32,
            ray_lens_radius: 0u32,
            ray_debug_rand_color: 0i32,
            ray_focus_viewer_visible: 0i32,
            ray_debug_bvh_bounding_box: 0i32,
            ray_debug_bvh_bounding_color: 0i32,
            first_pass: 4i32,
            second_pass: 2i32,
            temporal_basic_low_threshold: 0x3d4c_cccdu32,
            temporal_basic_high_threshold: 0x3e4c_cccdu32,
            temporal_basic_low_blend_factor: 0x3cf5_c28fu32,
            temporal_basic_high_blend_factor: 0x3e4c_cccdu32,
            temporal_adaptive_motion_threshold: 0x3ba3_d70au32,
            temporal_adaptive_direction_threshold: 0x3c23_d70au32,
            temporal_adaptive_low_threshold: 0x3d4c_cccdu32,
            temporal_adaptive_high_threshold: 0x3e4c_cccdu32,
            temporal_adaptive_low_blend_factor: 0x3cf5_c28fu32,
            temporal_adaptive_high_blend_factor: 0x3e4c_cccdu32,
            spatial_kernel_size: 3i32,
            spatial_bilat_space_sigma: 0x42c8_0000u32,
            spatial_bilat_color_sigma: 0x41a0_0000u32,
            spatial_bilat_radius: 3i32,
            spatial_den_cormpare_radius: 13i32,
            spatial_den_patch_radius: 5i32,
            spatial_den_significant_weight: 0x3a83_126fu32,
        }
    }

    /// `c` with every denoise parameter back at its default.
    pub fn default_denoise(c: ShaderConfig) -> (r: ShaderConfig)
        ensures
            r == (ShaderConfig {
                ray_max_bounces: c.ray_max_bounces,
                ray_samples_per_pixel: c.ray_samples_per_pixel,
                ray_max_ray_distance: c.ray_max_ray_distance,
                ray_focus_distance: c.ray_focus_distance,
                ray_aperture: c.ray_aperture,
                ray_lens_radius: c.ray_lens_radius,
                ray_debug_rand_color: c.ray_debug_rand_color,
                ray_focus_viewer_visible: c.ray_focus_viewer_visible,
                ray_debug_bvh_bounding_box: c.ray_debug_bvh_bounding_box,
                ray_debug_bvh_bounding_color: c.ray_debug_bvh_bounding_color,
                first_pass: ShaderConfig::spec_default().first_pass,
                second_pass: ShaderConfig::spec_default().second_pass,
                temporal_basic_low_threshold: ShaderConfig::spec_default().temporal_basic_low_threshold,
                temporal_basic_high_threshold: ShaderConfig::spec_default().temporal_basic_high_threshold,
                temporal_basic_low_blend_factor: ShaderConfig::spec_default().temporal_basic_low_blend_factor,
                temporal_basic_high_blend_factor: ShaderConfig::spec_default().temporal_basic_high_blend_factor,
                temporal_adaptive_motion_threshold: ShaderConfig::spec_default().temporal_adaptive_motion_threshold,
                temporal_adaptive_direction_threshold: ShaderConfig::spec_default().temporal_adaptive_direction_threshold,
                temporal_adaptive_low_threshold: ShaderConfig::spec_default().temporal_adaptive_low_threshold,
                temporal_adaptive_high_threshold: ShaderConfig::spec_default().temporal_adaptive_high_threshold,
                temporal_adaptive_low_blend_factor: ShaderConfig::spec_default().temporal_adaptive_low_blend_factor,
                temporal_adaptive_high_blend_factor: ShaderConfig::spec_default().temporal_adaptive_high_blend_factor,
                spatial_kernel_size: ShaderConfig::spec_default().spatial_kernel_size,
                spatial_bilat_space_sigma: ShaderConfig::spec_default().spatial_bilat_space_sigma,
                spatial_bilat_color_sigma: ShaderConfig::spec_default().spatial_bilat_color_sigma,
                spatial_bilat_radius: ShaderConfig::spec_default().spatial_bilat_radius,
                spatial_den_cormpare_radius: ShaderConfig::spec_default().spatial_den_cormpare_radius,
                spatial_den_patch_radius: ShaderConfig::spec_default().spatial_den_patch_radius,
                spatial_den_significant_weight: ShaderConfig::spec_default().spatial_den_significant_weight,
            }),
    {
        ShaderConfig {
            first_pass: 4i32,
            second_pass: 2i32,
            temporal_basic_low_threshold: 0x3d4c_cccdu32,
            temporal_basic_high_threshold: 0x3e4c_cccdu32,
            temporal_basic_low_blend_factor: 0x3cf5_c28fu32,
            temporal_basic_high_blend_factor: 0x3e4c_cccdu32,
            temporal_adaptive_motion_threshold: 0x3ba3_d70au32,
            temporal_adaptive_direction_threshold: 0x3c23_d70au32,
            temporal_adaptive_low_threshold: 0x3d4c_cccdu32,
            temporal_adaptive_high_threshold: 0x3e4c_cccdu32,
            temporal_adaptive_low_blend_factor: 0x3cf5_c28fu32,
            temporal_adaptive_high_blend_factor: 0x3e4c_cccdu32,
            spatial_kernel_size: 3i32,
            spatial_bilat_space_sigma: 0x42c8_0000u32,
            spatial_bilat_color_sigma: 0x41a0_0000u32,
            spatial_bilat_radius: 3i32,
            spatial_den_cormpare_radius: 13i32,
            spatial_den_patch_radius: 5i32,
            spatial_den_significant_weight: 0x3a83_126fu32,
            ..c
        }
    }

    /// `c` with every ray-generation parameter back at its default.
    pub fn default_raytrace(c: ShaderConfig) -> (r: ShaderConfig)
        ensures
            r == (ShaderConfig {
                ray_max_bounces: ShaderConfig::spec_default().ray_max_bounces,
                ray_samples_per_pixel: ShaderConfig::spec_default().ray_samples_per_pixel,
                ray_max_ray_distance: ShaderConfig::spec_default().ray_max_ray_distance,
                ray_focus_distance: ShaderConfig::spec_default().ray_focus_distance,
                ray_aperture: ShaderConfig::spec_default().ray_aperture,
                ray_lens_radius: ShaderConfig::spec_default().ray_lens_radius,
                ray_debug_rand_color: ShaderConfig::spec_default().ray_debug_rand_color,
                ray_focus_viewer_visible: ShaderConfig::spec_default().ray_focus_viewer_visible,
                ray_debug_bvh_bounding_box: ShaderConfig::spec_default().ray_debug_bvh_bounding_box,
                ray_debug_bvh_bounding_color: ShaderConfig::spec_default().ray_debug_bvh_bounding_color,
                first_pass: c.first_pass,
                second_pass: c.second_pass,
                temporal_basic_low_threshold: c.temporal_basic_low_threshold,
                temporal_basic_high_threshold: c.temporal_basic_high_threshold,
                temporal_basic_low_blend_factor: c.temporal_basic_low_blend_factor,
                temporal_basic_high_blend_factor: c.temporal_basic_high_blend_factor,
                temporal_adaptive_motion_threshold: c.temporal_adaptive_motion_threshold,
                temporal_adaptive_direction_threshold: c.temporal_adaptive_direction_threshold,
                temporal_adaptive_low_threshold: c.temporal_adaptive_low_threshold,
                temporal_adaptive_high_threshold: c.temporal_adaptive_high_threshold,
                temporal_adaptive_low_blend_factor: c.temporal_adaptive_low_blend_factor,
                temporal_adaptive_high_blend_factor: c.temporal_adaptive_high_blend_factor,
                spatial_kernel_size: c.spatial_kernel_size,
                spatial_bilat_space_sigma: c.spatial_bilat_space_sigma,
                spatial_bilat_color_sigma: c.spatial_bilat_color_sigma,
                spatial_bilat_radius: c.spatial_bilat_radius,
                spatial_den_cormpare_radius: c.spatial_den_cormpare_radius,
                spatial_den_patch_radius: c.spatial_den_patch_radius,
                spatial_den_significant_weight: c.spatial_den_significant_weight,
            }),
    {
        ShaderConfig {
            ray_max_bounces: 10i32,
            ray_samples_per_pixel: 1i32,
            ray_max_ray_distance: 0x461c_4000u32,
            ray_focus_distance: 0x4020_0000u32,
            ray_aperture: 0x3ba3_d70au32,
            ray_lens_radius: 0u32,
            ray_debug_rand_color: 0i32,
            ray_focus_viewer_visible: 0i32,
            ray_debug_bvh_bounding_box: 0i32,
            ray_debug_bvh_bounding_color: 0i32,
            ..c
        }
    }
}

} // verus!
