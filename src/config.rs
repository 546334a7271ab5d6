use vstd::prelude::*;
use vstd::string::StringSliceAdditionalSpecFns;

verus! {

/// One texture set of the configuration: up to three image paths.
#[derive(Clone, Debug)]
pub struct Textureset {
    pub diffuse_path: Option<String>,
    pub normal_path: Option<String>,
    pub roughness_path: Option<String>,
}

#[derive(Clone, Copy, Debug, PartialEq, Eq, Structural)]
pub enum ConfigError {
    /// A texture set names none of its three paths.
    MissingTexturePaths,
}

impl Textureset {
    /// A texture set needs at least one of its paths.
    pub fn from_paths(diffuse_path: Option<String>, normal_path: Option<String>, roughness_path: Option<String>) -> (r:
        Result<Textureset, ConfigError>)
        ensures
            (diffuse_path is Some || normal_path is Some || roughness_path is Some) ==> r == Ok::<
                Textureset,
                ConfigError,
            >(Textureset { diffuse_path, normal_path, roughness_path }),
            (diffuse_path is None && normal_path is None && roughness_path is None) ==> r == Err::<
                Textureset,
                ConfigError,
            >(ConfigError::MissingTexturePaths),
    {
        if diffuse_path.is_some() || normal_path.is_some() || roughness_path.is_some() {
            Ok(Textureset { diffuse_path, normal_path, roughness_path })
        } else {
            Err(ConfigError::MissingTexturePaths)
        }
    }
}

pub open spec fn present(p: Option<String>) -> Seq<String> {
    match p {
        Some(s) => seq![s],
        None => seq![],
    }
}

/// The paths of one set in loading order: diffuse, normal, roughness.
pub open spec fn set_paths(t: Textureset) -> Seq<String> {
    present(t.diffuse_path) + present(t.normal_path) + present(t.roughness_path)
}

/// The paths of all sets, set after set.
pub open spec fn all_paths(sets: Seq<Textureset>) -> Seq<String>
    decreases sets.len(),
{
    if sets.len() == 0 {
        seq![]
    } else {
        all_paths(sets.drop_last()) + set_paths(sets.last())
    }
}

fn push_present(out: &mut Vec<String>, p: &Option<String>)
    ensures
        final(out)@ == old(out)@ + present(*p),
{
    match p {
        Some(s) => {
            out.push(s.clone());
            assert(final(out)@ =~= old(out)@ + present(*p));
        },
        None => {
            assert(old(out)@ + present(*p) =~= old(out)@);
        },
    }
}

/// The image paths of the configuration's texture sets, in the order in
/// which their images take texture ids.
pub fn texture_paths(sets: &Vec<Textureset>) -> (r: Vec<String>)
    ensures
        r@ == all_paths(sets@),
{
    let mut out: Vec<String> = Vec::new();
    let mut i: usize = 0;
    while i < sets.len()
        invariant
            i <= sets@.len(),
            out@ == all_paths(sets@.take(i as int)),
        decreases sets@.len() - i,
    {
        let ghost before = out@;
        push_present(&mut out, &sets[i].diffuse_path);
        push_present(&mut out, &sets[i].normal_path);
        push_present(&mut out, &sets[i].roughness_path);
        assert(sets@.take(i as int + 1).drop_last() =~= sets@.take(i as int));
        i = i + 1;
        assert(out@ =~= all_paths(sets@.take(i as int)));
    }
    assert(sets@.take(i as int) =~= sets@);
    out
}

/// Where the mesh files are, and which material the triangulated mesh uses.
#[derive(Clone, Debug)]
pub struct ModelPaths {
    pub gltf_path: Option<String>,
    pub obj_path: Option<String>,
    pub obj_material_id: Option<i32>,
}

impl ModelPaths {
    pub fn new(gltf_path: Option<String>, obj_path: Option<String>, obj_material_id: Option<i32>) -> (r: ModelPaths)
        ensures
            r == (ModelPaths { gltf_path, obj_path, obj_material_id }),
    {
        ModelPaths { gltf_path, obj_path, obj_material_id }
    }

    /// No mesh files.
    pub fn default() -> (r: ModelPaths)
        ensures
            r == (ModelPaths { gltf_path: None, obj_path: None, obj_material_id: None }),
    {
        ModelPaths { gltf_path: None, obj_path: None, obj_material_id: None }
    }

    /// The material of the triangulated mesh: the configured one, else 0.
    pub fn obj_material(&self) -> (r: i32)
        ensures
            r == match self.obj_material_id {
                Some(m) => m,
                None => 0i32,
            },
    {
        match self.obj_material_id {
            Some(m) => m,
            None => 0,
        }
    }
}

/// A path names a file when it is present and not empty.
pub open spec fn names_file(p: Option<String>) -> bool {
    p matches Some(s) && s@.len() > 0
}

/// Whether a configured path names a file to load: absent and empty paths
/// are skipped.
pub fn path_to_load(p: &Option<String>) -> (r: Option<String>)
    ensures
        names_file(*p) ==> r == *p,
        !names_file(*p) ==> r is None,
{
    match p {
        Some(s) => {
            if s.as_str().is_empty() {
                None
            } else {
                Some(s.clone())
            }
        },
        None => None,
    }
}

/// Settings of the overlay: which panels are open and the frame-rate cap
/// (`0`: uncapped).
#[derive(Clone, Copy, Debug, PartialEq, Eq, Structural)]
pub struct GuiConfig {
    pub ray_settings_open: bool,
    pub denoise_settings_open: bool,
    pub info_open: bool,
    pub frame_limit: u32,
    pub frame_limit_unlimited: bool,
}

impl GuiConfig {
    /// All panels closed, capped at 60 frames per second.
    pub fn default() -> (r: GuiConfig)
        ensures
            r == (GuiConfig {
                ray_settings_open: false,
                denoise_settings_open: false,
                info_open: false,
                frame_limit: 60,
                frame_limit_unlimited: false,
            }),
    {
        GuiConfig {
            ray_settings_open: false,
            denoise_settings_open: false,
            info_open: false,
            frame_limit: 60,
            frame_limit_unlimited: false,
        }
    }
}

/// Background image formats the environment loader can read.
#[derive(Clone, Copy, Debug, PartialEq, Eq, Structural)]
pub enum BackgroundFormat {
    Hdr,
    Exr,
}

#[derive(Clone, Copy, Debug, PartialEq, Eq, Structural)]
pub enum BackgroundError {
    /// The path ends in neither `.hdr` nor `.exr`.
    UnsupportedFormat,
}

impl BackgroundError {
    /// What went wrong, for the person who wrote the configuration.
    pub fn message(&self) -> (r: String)
        ensures
            r@ == "Unsupported file format for background image. Supported formats are: .hdr, .exr"@,
    {
        "Unsupported file format for background image. Supported formats are: .hdr, .exr".to_owned()
    }
}

/// The bytes after the last `.` of `b`, or all of `b` when it has none.
pub open spec fn extension(b: Seq<u8>) -> Seq<u8>
    decreases b.len(),
{
    if b.len() == 0 {
        b
    } else if b.last() == 46u8 {
        seq![]
    } else {
        extension(b.drop_last()).push(b.last())
    }
}

pub open spec fn spec_background_format(path: Seq<u8>) -> Result<BackgroundFormat, BackgroundError> {
    let e = extension(path);
    if e == seq![104u8, 100u8, 114u8] {
        Ok(BackgroundFormat::Hdr)
    } else if e == seq![101u8, 120u8, 114u8] {
        Ok(BackgroundFormat::Exr)
    } else {
        Err(BackgroundError::UnsupportedFormat)
    }
}

proof fn lemma_extension_after(b: Seq<u8>, k: int)
    requires
        0 <= k <= b.len(),
        forall|j: int| k <= j < b.len() ==> b[j] != 46u8,
        k == 0 || b[k - 1] == 46u8,
    ensures
        extension(b) == b.subrange(k, b.len() as int),
    decreases b.len(),
{
    if b.len() == k {
        if k > 0 {
            assert(b.last() == 46u8);
        }
        assert(b.subrange(k, b.len() as int) =~= seq![]);
        if k == 0 {
            assert(b =~= seq![]);
        }
    } else {
        lemma_extension_after(b.drop_last(), k);
        assert(b.subrange(k, b.len() as int) =~= b.drop_last().subrange(k, b.len() - 1).push(b.last()));
    }
}

/// Picks the decoder of a background image by its file extension.
pub fn background_format(path: &str) -> (r: Result<BackgroundFormat, BackgroundError>)
    ensures
        r == spec_background_format(path.spec_bytes()),
{
    let b = path.as_bytes();
    let mut k: usize = b.len();
    while k > 0 && b[k - 1] != 46u8
        invariant
            k <= b@.len(),
            forall|j: int| k <= j < b@.len() ==> b@[j] != 46u8,
        decreases k,
    {
        k = k - 1;
    }
    proof {
        lemma_extension_after(b@, k as int);
    }
    let n = b.len() - k;
    if n == 3 && b[k] == 104u8 && b[k + 1] == 100u8 && b[k + 2] == 114u8 {
        assert(b@.subrange(k as int, b@.len() as int) =~= seq![104u8, 100u8, 114u8]);
        Ok(BackgroundFormat::Hdr)
    } else if n == 3 && b[k] == 101u8 && b[k + 1] == 120u8 && b[k + 2] == 114u8 {
        assert(b@.subrange(k as int, b@.len() as int) =~= seq![101u8, 120u8, 114u8]);
        Ok(BackgroundFormat::Exr)
    } else {
        let ghost e = b@.subrange(k as int, b@.len() as int);
        assert(e != seq![104u8, 100u8, 114u8] && e != seq![101u8, 120u8, 114u8]) by {
            if e.len() == 3 {
                assert(e[0] == b@[k as int] && e[1] == b@[k + 1] && e[2] == b@[k + 2]);
            }
        }
        Err(BackgroundError::UnsupportedFormat)
    }
}

} // verus!
