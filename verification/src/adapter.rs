//! The windows that the UI toolkit draws to.
use vstd::prelude::*;

verus! {

/// A size in physical pixels.
#[derive(Clone, Copy, Debug, PartialEq, Eq, Structural)]
pub struct PhysicalSize {
    pub width: u32,
    pub height: u32,
}

/// The geometry that the UI toolkit asks its window for.
#[derive(Clone, Copy, Debug, PartialEq, Eq, Structural)]
pub struct BaseviewSlintAdapter {
    /// Size of the framebuffer.
    pub physical_size: PhysicalSize,
    /// Bit pattern of the scale factor, a double.
    pub scale_factor: u64,
}

impl BaseviewSlintAdapter {
    pub fn new(physical_width: u32, physical_height: u32, scale_factor: u64) -> (adapter: Self)
        ensures
            adapter.physical_size == (PhysicalSize {
                width: physical_width,
                height: physical_height,
            }),
            adapter.scale_factor == scale_factor,
    {
        BaseviewSlintAdapter {
            physical_size: PhysicalSize { width: physical_width, height: physical_height },
            scale_factor,
        }
    }

    /// Takes over a new size and scale factor of the window.
    pub fn update_size(&mut self, physical_width: u32, physical_height: u32, scale_factor: u64)
        ensures
            final(self).physical_size == (PhysicalSize {
                width: physical_width,
                height: physical_height,
            }),
            final(self).scale_factor == scale_factor,
    {
        self.physical_size = PhysicalSize { width: physical_width, height: physical_height };
        self.scale_factor = scale_factor;
    }

    /// Size of the framebuffer.
    pub fn size(&self) -> (size: PhysicalSize)
        ensures
            size == self.physical_size,
    {
        self.physical_size
    }
}

/// Why the UI toolkit got no window.
#[derive(Clone, Copy, Debug, PartialEq, Eq, Structural)]
pub enum PlatformError {
    /// A component was created while no window was being opened.
    NoAdapter,
}

impl PlatformError {
    /// The error in words.
    pub fn message(&self) -> (text: &'static str)
        ensures
            text@ == "No adapter set"@,
    {
        "No adapter set"
    }
}

/// The adapter of the window that was opened last.
///
/// The UI toolkit takes its platform once per process, so the platform hands out whatever
/// adapter is current at the time a component is created.
#[derive(Debug)]
pub struct CurrentAdapter<A> {
    pub current: Option<A>,
}

impl<A> CurrentAdapter<A> {
    /// No window was opened yet.
    pub fn empty() -> (slot: Self)
        ensures
            slot.current is None,
    {
        CurrentAdapter { current: None }
    }

    /// The slot after a window with this adapter was opened.
    pub open spec fn installed(self, adapter: A) -> CurrentAdapter<A> {
        CurrentAdapter { current: Some(adapter) }
    }

    /// The adapter that a component gets which is created now.
    pub open spec fn provided(self) -> Result<A, PlatformError> {
        match self.current {
            Some(adapter) => Ok(adapter),
            None => Err(PlatformError::NoAdapter),
        }
    }

    /// A window is being opened; its adapter takes the place of any earlier one.
    pub fn install(&mut self, adapter: A)
        ensures
            *final(self) == old(self).installed(adapter),
    {
        self.current = Some(adapter);
    }

    /// The adapter for a component that is being created.
    pub fn create_window_adapter(&self) -> (res: Result<&A, PlatformError>)
        ensures
            match res {
                Ok(adapter) => self.provided() == Ok::<A, PlatformError>(*adapter),
                Err(error) => self.provided() == Err::<A, PlatformError>(error),
            },
    {
        match &self.current {
            Some(adapter) => Ok(adapter),
            None => Err(PlatformError::NoAdapter),
        }
    }
}

} // verus!
