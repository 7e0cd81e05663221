use vstd::prelude::*;

verus! {

/// Width and height of a pixel grid.
#[derive(Clone, Copy, Debug, PartialEq, Eq, Structural)]
pub struct Dimensions {
    pub width: u32,
    pub height: u32,
}

impl Dimensions {
    /// Number of cells of a grid of these dimensions.
    pub open spec fn area(self) -> int {
        self.width as int * self.height as int
    }

    /// A grid with no cell has nothing to draw on.
    pub open spec fn is_empty(self) -> bool {
        self.width == 0 || self.height == 0
    }
}

/// What a window is opened with.
pub struct RenderConfig {
    pub window_title: String,
    pub window_dimensions: Dimensions,
}

/// What a frame asks of the surface that shows it, one thing at a time.
#[derive(Clone, Copy, Debug, PartialEq, Eq, Structural)]
pub enum SurfaceRequest {
    /// A target of the size of the output, in the pixel format of the frame.
    CreateTarget,
    /// The pixels of the frame, written into the target while it is locked.
    WritePixels,
    /// A blank surface.
    Clear,
    /// The target, handed to the surface.
    Submit,
    /// The surface, shown.
    Present,
}

/// The requests of a frame in the order in which they are made.
pub open spec fn frame_requests() -> Seq<SurfaceRequest> {
    seq![
        SurfaceRequest::CreateTarget,
        SurfaceRequest::WritePixels,
        SurfaceRequest::Clear,
        SurfaceRequest::Submit,
        SurfaceRequest::Present,
    ]
}

/// How many requests of a frame come before the given one.
pub open spec fn place_of(request: SurfaceRequest) -> int {
    match request {
        SurfaceRequest::CreateTarget => 0,
        SurfaceRequest::WritePixels => 1,
        SurfaceRequest::Clear => 2,
        SurfaceRequest::Submit => 3,
        SurfaceRequest::Present => 4,
    }
}

/// What a frame starts with.
pub fn first_request() -> (request: SurfaceRequest)
    ensures
        request == frame_requests()[0],
{
    SurfaceRequest::CreateTarget
}

/// What a frame asks for once the surface has done what was asked of it:
/// the next request of the frame, and nothing after the last. A request that
/// the surface fails is not followed by another: the frame is given up.
pub fn next_request(done: SurfaceRequest) -> (next: Option<SurfaceRequest>)
    ensures
        frame_requests()[place_of(done)] == done,
        match next {
            Some(request) => place_of(done) < 4 && request == frame_requests()[place_of(done) + 1],
            None => place_of(done) == 4,
        },
{
    match done {
        SurfaceRequest::CreateTarget => Some(SurfaceRequest::WritePixels),
        SurfaceRequest::WritePixels => Some(SurfaceRequest::Clear),
        SurfaceRequest::Clear => Some(SurfaceRequest::Submit),
        SurfaceRequest::Submit => Some(SurfaceRequest::Present),
        SurfaceRequest::Present => None,
    }
}

} // verus!
