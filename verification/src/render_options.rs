use vstd::prelude::*;

verus! {

/// Selects the level of hardware graphics acceleration.
#[derive(Clone, Copy, Debug, PartialEq, Eq, Structural, Hash)]
pub enum HardwareAcceleration {
    /// Require graphics acceleration.
    Required,
    /// Prefer graphics acceleration, but fall back to software.
    Preferred,
    /// Do NOT use graphics acceleration.
    ///
    /// On some platforms (macOS) this is ignored and treated the same as
    /// [`Self::Preferred`].
    Off,
}

/// What rendering backend to use.
#[derive(Clone, Copy, Debug, PartialEq, Eq, Structural)]
pub enum Renderer {
    /// Use the egui wgpu renderer for wgpu.
    Wgpu,
}

impl Default for Renderer {
    fn default() -> (r: Self)
        ensures
            r == Renderer::Wgpu,
    {
        Renderer::Wgpu
    }
}

impl Renderer {
    /// The name of the renderer: `"wgpu"`.
    pub fn to_string(&self) -> (s: String)
        ensures
            s@ == "wgpu"@,
    {
        String::from_str("wgpu")
    }
}

/// Any name selects the wgpu renderer, the only one there is.
impl std::str::FromStr for Renderer {
    type Err = String;

    fn from_str(name: &str) -> (r: Result<Self, String>)
        ensures
            r == Ok::<Renderer, String>(Renderer::Wgpu),
    {
        let _ = name;
        Ok(Renderer::Wgpu)
    }
}

} // verus!
