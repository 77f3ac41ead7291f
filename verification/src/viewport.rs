//! The surface context of one window: which configuration its surface
//! carries and how many frames it has presented.

use crate::event::PhysicalSize;
use vstd::prelude::*;

verus! {

/// Smallest width and height a surface can be configured with.
pub const MIN_EXTENT: u32 = 1;

/// Extent a surface is configured with.
#[derive(Clone, Copy, Debug, PartialEq, Eq, Structural)]
pub struct SurfaceConfiguration {
    pub width: u32,
    pub height: u32,
}

/// What the host must apply to a surface: the configuration that was put in
/// force and, after the build, the request for a first redraw.
#[derive(Clone, Copy, Debug, PartialEq, Eq, Structural)]
pub struct SurfaceUpdate {
    /// The configuration to configure the surface with.
    pub config: SurfaceConfiguration,
    /// Whether the window is to be asked for a redraw afterwards.
    pub redraw: bool,
}

/// Why an operation on a surface context failed.
#[derive(Clone, Copy, Debug, PartialEq, Eq, Structural)]
pub enum ViewportError {
    /// Build was asked of a context that is built already.
    AlreadyBuilt,
    /// The next frame of the surface could not be acquired.
    SurfaceLost,
}

impl SurfaceConfiguration {
    /// True when a surface can be configured with this extent: neither side
    /// is below `MIN_EXTENT`.
    pub open spec fn is_valid(self) -> bool {
        self.width >= MIN_EXTENT && self.height >= MIN_EXTENT
    }

    /// The configuration for a drawable area of `size`: the size itself,
    /// with a width or height of zero raised to `MIN_EXTENT`.
    pub open spec fn fitting(size: PhysicalSize) -> SurfaceConfiguration {
        SurfaceConfiguration {
            width: if size.width < MIN_EXTENT { MIN_EXTENT } else { size.width },
            height: if size.height < MIN_EXTENT { MIN_EXTENT } else { size.height },
        }
    }

    /// Computes the configuration for a drawable area of `size`.
    pub fn fit(size: PhysicalSize) -> (config: SurfaceConfiguration)
        ensures
            config == Self::fitting(size),
            config.is_valid(),
            size.width >= MIN_EXTENT ==> config.width == size.width,
            size.height >= MIN_EXTENT ==> config.height == size.height,
        no_unwind
    {
        let width: u32 = if size.width < MIN_EXTENT { MIN_EXTENT } else { size.width };
        let height: u32 = if size.height < MIN_EXTENT { MIN_EXTENT } else { size.height };
        SurfaceConfiguration { width, height }
    }
}

/// Mathematical content of a `Viewport`.
pub struct ViewportView {
    /// The configuration in force; `None` until the context is built.
    pub config: Option<SurfaceConfiguration>,
    /// Frames presented so far; the count stops at `u64::MAX`.
    pub frames: u64,
}

impl ViewportView {
    /// A context that has not been built and has presented nothing.
    pub open spec fn fresh() -> ViewportView {
        ViewportView { config: None, frames: 0 }
    }

    /// True once the build step has put a configuration in force.
    pub open spec fn is_built(self) -> bool {
        self.config is Some
    }

    /// True when the configuration in force, if there is one, is valid.
    pub open spec fn is_valid(self) -> bool {
        self.config matches Some(config) ==> config.is_valid()
    }

    /// Outcome of building with the window's current `size`.
    pub open spec fn build(self, size: PhysicalSize) -> (
        ViewportView,
        Result<SurfaceUpdate, ViewportError>,
    ) {
        if self.is_built() {
            (self, Err(ViewportError::AlreadyBuilt))
        } else {
            let config = SurfaceConfiguration::fitting(size);
            (
                ViewportView { config: Some(config), ..self },
                Ok(SurfaceUpdate { config, redraw: true }),
            )
        }
    }

    /// Outcome of a resize of a built context to `size`.
    pub open spec fn resize(self, size: PhysicalSize) -> (ViewportView, SurfaceUpdate)
        recommends
            self.is_built(),
    {
        let config = SurfaceConfiguration::fitting(size);
        (ViewportView { config: Some(config), ..self }, SurfaceUpdate { config, redraw: false })
    }

    /// The frame count after one more presented frame.
    pub open spec fn next_frame_count(self) -> u64 {
        if self.frames < u64::MAX {
            (self.frames + 1) as u64
        } else {
            self.frames
        }
    }

    /// Outcome of a paint on a built context, given whether the next frame
    /// was acquired.
    pub open spec fn paint(self, acquired: bool) -> (ViewportView, Result<(), ViewportError>)
        recommends
            self.is_built(),
    {
        if acquired {
            (ViewportView { frames: self.next_frame_count(), ..self }, Ok(()))
        } else {
            (self, Err(ViewportError::SurfaceLost))
        }
    }
}

/// Surface context of one window.
///
/// It is created unbuilt, built exactly once, and resized and painted any
/// number of times after that. To resize or paint a context that is not
/// built is an error of the caller, which the contracts of both rule out.
/// The host applies to the real surface what each operation returns. The
/// configuration in force is always a valid one.
#[derive(Debug)]
pub struct Viewport {
    config: Option<SurfaceConfiguration>,
    frames: u64,
}

impl View for Viewport {
    type V = ViewportView;

    closed spec fn view(&self) -> ViewportView {
        ViewportView { config: self.config, frames: self.frames }
    }
}

impl Viewport {
    #[verifier::type_invariant]
    spec fn well_formed(self) -> bool {
        self@.is_valid()
    }

    /// Creates a context that is not built yet.
    pub fn new() -> (viewport: Viewport)
        ensures
            viewport@ == ViewportView::fresh(),
    {
        Viewport { config: None, frames: 0 }
    }

    /// Tells whether the build step has been done.
    pub fn is_built(&self) -> (built: bool)
        ensures
            built == self@.is_built(),
        no_unwind
    {
        match self.config {
            Some(_) => true,
            None => false,
        }
    }

    /// The configuration in force, if the context is built.
    pub fn config(&self) -> (config: Option<SurfaceConfiguration>)
        ensures
            config == self@.config,
            self@.is_valid(),
    {
        proof {
            use_type_invariant(self);
        }
        self.config
    }

    /// Number of frames presented so far.
    pub fn frames(&self) -> (frames: u64)
        ensures
            frames == self@.frames,
    {
        self.frames
    }

    /// Completes the build step for a window whose drawable area is `size`.
    /// The host calls it once it holds adapter, device and queue.
    ///
    /// On an unbuilt context the configuration fitting `size` is put in
    /// force. It is returned together with the request for a first redraw:
    /// the host configures the surface with it and then asks the window to
    /// redraw. A built context is left as it is and the call fails with
    /// `AlreadyBuilt`.
    pub fn build(&mut self, size: PhysicalSize) -> (outcome: Result<SurfaceUpdate, ViewportError>)
        ensures
            (final(self)@, outcome) == old(self)@.build(size),
            outcome is Ok <==> !old(self)@.is_built(),
            outcome matches Ok(update) ==> update.config.is_valid(),
            final(self)@.is_built(),
            final(self)@.is_valid(),
        no_unwind
    {
        proof {
            use_type_invariant(&*self);
        }
        match self.config {
            Some(_) => Err(ViewportError::AlreadyBuilt),
            None => {
                let config = SurfaceConfiguration::fit(size);
                self.config = Some(config);
                Ok(SurfaceUpdate { config, redraw: true })
            },
        }
    }

    /// Puts the configuration fitting `size` in force on a built context
    /// and returns it for the host to configure the surface with; no redraw
    /// is asked for.
    pub fn resize(&mut self, size: PhysicalSize) -> (update: SurfaceUpdate)
        requires
            old(self)@.is_built(),
        ensures
            (final(self)@, update) == old(self)@.resize(size),
            final(self)@.config == Some(SurfaceConfiguration::fitting(size)),
            final(self)@.frames == old(self)@.frames,
            update.config.is_valid(),
        no_unwind
    {
        let config = SurfaceConfiguration::fit(size);
        self.config = Some(config);
        SurfaceUpdate { config, redraw: false }
    }

    /// Records a paint on a built context; `acquired` says whether the host
    /// obtained the next frame of the surface, which it then cleared,
    /// submitted and presented.
    ///
    /// With a frame in hand the frame counts as presented. Without one the
    /// call fails with `SurfaceLost` and the context stays as it is.
    pub fn paint(&mut self, acquired: bool) -> (outcome: Result<(), ViewportError>)
        requires
            old(self)@.is_built(),
        ensures
            (final(self)@, outcome) == old(self)@.paint(acquired),
            outcome is Ok <==> acquired,
            final(self)@.config == old(self)@.config,
        no_unwind
    {
        if acquired {
            proof {
                use_type_invariant(&*self);
            }
            if self.frames < u64::MAX {
                self.frames = self.frames + 1;
            }
            Ok(())
        } else {
            Err(ViewportError::SurfaceLost)
        }
    }
}

} // verus!
