//! Pipelines that process the files of the public directory, and where
//! each file lands.
use vstd::prelude::*;
use crate::path::{
    spec_file_name, spec_join, spec_parent, spec_strip_prefix, valid_component, wf_path, FsPath,
    PathView,
};

verus! {

/// A file to process in a pipeline.
#[derive(Debug)]
pub struct PipelineFile {
    /// The base directory of the file, from which its relative path is taken.
    pub base_dir: FsPath,
    /// The file to process.
    pub file: FsPath,
}

/// A pipeline to process files.
pub trait Pipeline {
    /// Whether this pipeline takes the given file for the destination.
    spec fn accepts(&self, src: PipelineFile, dest_dir: PathView) -> bool;

    /// The name of the pipeline.
    fn name(&self) -> (r: &'static str);

    /// Whether this pipeline can process the given file.
    fn can_process(&self, src: &PipelineFile, dest_dir: &FsPath) -> (r: bool)
        ensures
            r == self.accepts(*src, dest_dir@),
    ;
}

/// A pipeline that copies files; it takes any file, so it runs last.
#[derive(Debug)]
pub struct CopyFilesPipeline;

impl Pipeline for CopyFilesPipeline {
    /// Any file is copied.
    open spec fn accepts(&self, src: PipelineFile, dest_dir: PathView) -> bool {
        true
    }

    fn name(&self) -> (r: &'static str)
        ensures
            r@ == "copy files"@,
    {
        "copy files"
    }

    fn can_process(&self, src: &PipelineFile, dest_dir: &FsPath) -> (r: bool)
        ensures
            r,
    {
        true
    }
}

/// Where a file goes in the destination, and the directory to create
/// for it first, if any.
#[derive(Debug)]
pub struct FileDest {
    pub create_dir: Option<FsPath>,
    pub dest: FsPath,
}

/// The destination of a file: inside `dest_dir`, at the place it has
/// relative to `file_dir` when it lies within it. A relative path that does
/// not lie within `file_dir` names a file of `file_dir`, so it goes under
/// `dest_dir` followed by the components of `file_dir`. An absolute path
/// outside `file_dir` goes directly in `dest_dir`.
pub open spec fn spec_file_dest(file_dir: PathView, file: PathView, dest_dir: PathView) -> (
    Option<PathView>,
    PathView,
) {
    let name = spec_file_name(file).unwrap();
    match spec_strip_prefix(file, file_dir) {
        Some(rel) => {
            let dir = spec_join(dest_dir, spec_parent(rel).unwrap());
            (Some(dir), PathView { absolute: dir.absolute, parts: dir.parts.push(name) })
        },
        None => if !file.absolute {
            let dir = PathView {
                absolute: dest_dir.absolute,
                parts: dest_dir.parts + file_dir.parts + file.parts.drop_last(),
            };
            (Some(dir), PathView { absolute: dir.absolute, parts: dir.parts.push(name) })
        } else {
            (None, PathView { absolute: dest_dir.absolute, parts: dest_dir.parts.push(name) })
        },
    }
}

/// Computes the destination of a file within `dest_dir` from its place in
/// `file_dir`; the paths are taken as canonical. For example, the file
/// `products.json` of the directory `assets/json` goes to the directory
/// `public/assets/json` when `dest_dir` is `public/`, and so does the file
/// `assets/json/products.json` of the directory `assets` when `dest_dir` is
/// `public/assets`.
pub fn get_file_dest(file_dir: &FsPath, file: &FsPath, dest_dir: &FsPath) -> (r: FileDest)
    requires
        wf_path(file@),
        spec_file_name(file@) is Some,
        spec_strip_prefix(file@, file_dir@) matches Some(rel) ==> rel.parts.len() > 0,
    ensures
        ({
            let (dir, dest) = spec_file_dest(file_dir@, file@, dest_dir@);
            &&& r.dest@ == dest
            &&& match dir {
                Some(d) => r.create_dir matches Some(c) && c@ == d,
                None => r.create_dir is None,
            }
        }),
{
    let file_name = file.file_name().unwrap();
    proof {
        assert(valid_component(file@.parts[file@.parts.len() - 1]));
    }
    match file.strip_prefix(file_dir) {
        Some(relative) => {
            let parent = relative.parent().unwrap();
            let dir = dest_dir.join(&parent);
            let dest = dir.join_name(file_name.as_str());
            FileDest { create_dir: Some(dir), dest }
        },
        None => if !file.absolute {
            let under = FsPath::relative(file_dir.duplicate().parts);
            let parent = file.parent().unwrap();
            let dir = dest_dir.join(&under).join(&parent);
            let dest = dir.join_name(file_name.as_str());
            FileDest { create_dir: Some(dir), dest }
        } else {
            FileDest { create_dir: None, dest: dest_dir.join_name(file_name.as_str()) }
        },
    }
}

} // verus!
