//! The video file behind a pane, as the project that holds it names it.

use vstd::prelude::*;

use crate::paths::{is_answer_for, is_joined, is_portable, is_video, is_video_path, path_join};

verus! {

/// A path inside a project: the worktree and the path below its root.
pub struct ProjectPath {
    pub worktree_id: u64,
    pub path: String,
}

impl View for ProjectPath {
    type V = (u64, Seq<char>);

    open spec fn view(&self) -> (u64, Seq<char>) {
        (self.worktree_id, self.path@)
    }
}

/// An opened video file: where it stands in its project and on disk.
pub struct VideoItem {
    pub project_path: ProjectPath,
    pub abs_path: String,
}

impl VideoItem {
    /// Opens `path` as a video, if its extension is one of a video file.
    /// `worktree_root` is the directory of the worktree on disk; where the
    /// worktree is gone, the path itself has to do.
    pub fn try_open(path: &ProjectPath, worktree_root: Option<&str>) -> (item: Option<VideoItem>)
        ensures
            is_answer_for(item is Some, path.path@),
            is_portable(path.path@) ==> (item is Some <==> is_video(path.path@)),
            item matches Some(i) ==> {
                &&& i.project_path@ == path@
                &&& i.project_path.worktree_id == path.worktree_id
                &&& i.project_path.path@ == path.path@
                &&& worktree_root is None ==> i.abs_path@ == path.path@
                &&& worktree_root matches Some(root) ==> is_joined(i.abs_path@, root@, path.path@)
            },
    {
        if !is_video_path(path.path.as_str()) {
            return None;
        }
        let abs_path = match worktree_root {
            Some(root) => path_join(root, path.path.as_str()),
            None => path.path.clone(),
        };
        Some(
            VideoItem {
                project_path: ProjectPath {
                    worktree_id: path.worktree_id,
                    path: path.path.clone(),
                },
                abs_path,
            },
        )
    }

    /// A video file has no entry of its own in the project.
    pub fn entry_id(&self) -> (id: Option<u64>)
        ensures
            id is None,
    {
        None
    }

    /// Where the video stands in its project.
    pub fn project_path(&self) -> (path: ProjectPath)
        ensures
            path@ == self.project_path@,
            path.worktree_id == self.project_path.worktree_id,
            path.path@ == self.project_path.path@,
    {
        ProjectPath {
            worktree_id: self.project_path.worktree_id,
            path: self.project_path.path.clone(),
        }
    }
}

} // verus!
