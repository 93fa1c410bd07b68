//! Settings of one parse.

use vstd::prelude::*;

verus! {

/// The settings that steer how the grammar is recognized.
///
/// A state may read them when it is first made; nothing here changes them.
#[derive(Clone, Copy, Debug)]
pub struct ParserEnv {
    pub codegen: bool,
    pub hhvm_compat_mode: bool,
    pub php5_compat_mode: bool,
}

impl Default for ParserEnv {
    /// All settings switched off.
    fn default() -> (env: Self)
        ensures
            env == (ParserEnv { codegen: false, hhvm_compat_mode: false, php5_compat_mode: false }),
    {
        ParserEnv { codegen: false, hhvm_compat_mode: false, php5_compat_mode: false }
    }
}

} // verus!
