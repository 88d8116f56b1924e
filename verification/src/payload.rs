//! The launch payload: what a launch asks the companion to act on.

use vstd::prelude::*;

verus! {

/// The paths a launch names, tagged by what they are.
#[derive(Debug, PartialEq, Eq)]
pub enum CliContext {
    Files { files: Vec<String> },
    Images { images: Vec<String> },
}

/// A screen position near which the window should open.
#[derive(Debug, Clone, Copy, PartialEq, Eq, Default)]
pub struct Coords {
    pub x: i32,
    pub y: i32,
}

/// A resolved launch: the paths to act on and an optional placement hint.
#[derive(Debug, PartialEq, Eq)]
pub struct LaunchPayload {
    pub context: CliContext,
    pub coords: Option<Coords>,
}

/// Mathematical model of a [`CliContext`].
pub enum ContextView {
    Files(Seq<Seq<char>>),
    Images(Seq<Seq<char>>),
}

/// Mathematical model of a [`LaunchPayload`].
pub struct PayloadView {
    pub context: ContextView,
    pub coords: Option<Coords>,
}

impl ContextView {
    /// The listed paths, whatever their kind.
    pub open spec fn paths(self) -> Seq<Seq<char>> {
        match self {
            ContextView::Files(files) => files,
            ContextView::Images(images) => images,
        }
    }
}

impl View for CliContext {
    type V = ContextView;

    open spec fn view(&self) -> ContextView {
        match self {
            CliContext::Files { files } => ContextView::Files(files.deep_view()),
            CliContext::Images { images } => ContextView::Images(images.deep_view()),
        }
    }
}

impl View for LaunchPayload {
    type V = PayloadView;

    open spec fn view(&self) -> PayloadView {
        PayloadView { context: self.context@, coords: self.coords }
    }
}

/// A copy of a list of strings.
pub fn clone_strings(v: &Vec<String>) -> (out: Vec<String>)
    ensures
        out.deep_view() == v.deep_view(),
{
    let mut out: Vec<String> = Vec::new();
    let mut i: usize = 0;
    while i < v.len()
        invariant
            i <= v.len(),
            out.len() == i,
            forall|k: int| 0 <= k < i ==> out@[k]@ == v@[k]@,
        decreases v.len() - i,
    {
        out.push(v[i].clone());
        i += 1;
    }
    out
}

impl Clone for CliContext {
    fn clone(&self) -> (out: Self)
        ensures
            out@ == self@,
    {
        match self {
            CliContext::Files { files } => CliContext::Files { files: clone_strings(files) },
            CliContext::Images { images } => CliContext::Images { images: clone_strings(images) },
        }
    }
}

impl Clone for LaunchPayload {
    fn clone(&self) -> (out: Self)
        ensures
            out@ == self@,
    {
        LaunchPayload { context: self.context.clone(), coords: self.coords }
    }
}

impl CliContext {
    /// The listed paths, whatever their kind.
    pub fn paths(&self) -> (out: &Vec<String>)
        ensures
            out.deep_view() == self@.paths(),
    {
        match self {
            CliContext::Files { files } => files,
            CliContext::Images { images } => images,
        }
    }

    /// Tells whether the paths are images.
    pub fn is_images(&self) -> (b: bool)
        ensures
            b == (self@ is Images),
    {
        match self {
            CliContext::Files { .. } => false,
            CliContext::Images { .. } => true,
        }
    }
}

} // verus!
