use vstd::prelude::*;

verus! {

/// The options this library recognizes, fixed once compilation starts:
/// whether buffers hold interleaved complex pairs, whether the generator
/// emits fixed-width vector-lane code, whether batch evaluation may fan
/// out over worker threads, and whether the stream is finalized for the
/// bytecode interpreter instead of native code.
#[derive(Clone, Copy, PartialEq, Eq, Structural, Debug)]
pub struct Config {
    pub complex: bool,
    pub simd: bool,
    pub use_threads: bool,
    pub bytecode: bool,
}

impl Default for Config {
    /// The default configuration: native code, scalar, real coefficients,
    /// no thread fan-out.
    fn default() -> (c: Config)
        ensures
            c == (Config { complex: false, simd: false, use_threads: false, bytecode: false }),
    {
        Config { complex: false, simd: false, use_threads: false, bytecode: false }
    }
}

impl Config {
    /// Chooses whether buffers are read as interleaved complex pairs.
    pub fn set_complex(&mut self, enabled: bool)
        ensures
            *final(self) == (Config { complex: enabled, ..*old(self) }),
    {
        self.complex = enabled;
    }

    /// Chooses whether the generator emits fixed-width vector-lane code.
    pub fn set_simd(&mut self, enabled: bool)
        ensures
            *final(self) == (Config { simd: enabled, ..*old(self) }),
    {
        self.simd = enabled;
    }

    /// Chooses whether batch evaluation may fan out over worker threads.
    pub fn set_use_threads(&mut self, enabled: bool)
        ensures
            *final(self) == (Config { use_threads: enabled, ..*old(self) }),
    {
        self.use_threads = enabled;
    }

    /// Chooses the bytecode interpreter over native code generation.
    pub fn set_bytecode(&mut self, enabled: bool)
        ensures
            *final(self) == (Config { bytecode: enabled, ..*old(self) }),
    {
        self.bytecode = enabled;
    }

    /// Whether batch evaluation may fan out over worker threads.
    pub fn use_threads(&self) -> (b: bool)
        ensures
            b == self.use_threads,
    {
        self.use_threads
    }
}

} // verus!
