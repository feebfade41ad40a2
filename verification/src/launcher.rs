//! Browser launch configuration.
//!
//! The launch options are a plain configuration value: each builder
//! call yields a new value and nothing is mutated in place.  Actually
//! starting a browser process is host work and lives outside the
//! verified library.

use vstd::prelude::*;
use crate::engine::{engine_type_name, EngineType};
use crate::timing::{chrome_args, chrome_args_spec};
use vstd::string::StringExecFns;

verus! {

/// Options for launching a browser.
#[derive(Debug, Clone)]
pub struct LaunchOptions {
    /// The browser engine to use.
    pub engine: EngineType,
    /// Path to the user data directory, when one is forced.
    pub user_data_dir: Option<String>,
    /// Run in headless mode.
    pub headless: bool,
    /// Slow down operations by this many milliseconds.
    pub slow_mo: u64,
    /// Enable verbose logging.
    pub verbose: bool,
    /// Additional Chrome arguments.
    pub args: Vec<String>,
}

pub open spec fn launch_options_default_spec(o: LaunchOptions) -> bool {
    &&& o.engine == EngineType::Chromiumoxide
    &&& o.user_data_dir is None
    &&& !o.headless
    &&& o.slow_mo == 0
    &&& !o.verbose
    &&& o.args@.len() == 0
}

impl Default for LaunchOptions {
    fn default() -> (r: Self)
        ensures
            launch_options_default_spec(r),
    {
        LaunchOptions {
            engine: EngineType::Chromiumoxide,
            user_data_dir: None,
            headless: false,
            slow_mo: 0,
            verbose: false,
            args: Vec::new(),
        }
    }
}

impl LaunchOptions {
    /// Create options for the chromiumoxide engine.
    pub fn chromiumoxide() -> (r: Self)
        ensures
            launch_options_default_spec(r),
            r.engine == EngineType::Chromiumoxide,
    {
        Self::default()
    }

    /// Create options for the fantoccini (WebDriver) engine.
    pub fn fantoccini() -> (r: Self)
        ensures
            r.engine == EngineType::Fantoccini,
            r.user_data_dir is None,
            !r.headless,
            r.slow_mo == 0,
            !r.verbose,
            r.args@.len() == 0,
    {
        let mut o = Self::default();
        o.engine = EngineType::Fantoccini;
        o
    }

    /// Set headless mode.
    pub fn headless(self, headless: bool) -> (r: Self)
        ensures
            r == (Self { headless, ..self }),
    {
        Self { headless, ..self }
    }

    /// Set the user data directory.
    pub fn user_data_dir(self, dir: &str) -> (r: Self)
        ensures
            r.user_data_dir matches Some(d) && d@ == dir@,
            r.engine == self.engine,
            r.headless == self.headless,
            r.slow_mo == self.slow_mo,
            r.verbose == self.verbose,
            r.args == self.args,
    {
        Self { user_data_dir: Some(dir.to_owned()), ..self }
    }

    /// Set slow motion delay.
    pub fn slow_mo(self, ms: u64) -> (r: Self)
        ensures
            r == (Self { slow_mo: ms, ..self }),
    {
        Self { slow_mo: ms, ..self }
    }

    /// Enable verbose logging.
    pub fn verbose(self, verbose: bool) -> (r: Self)
        ensures
            r == (Self { verbose, ..self }),
    {
        Self { verbose, ..self }
    }

    /// Add additional Chrome arguments.
    pub fn with_args(self, args: Vec<String>) -> (r: Self)
        ensures
            r == (Self { args, ..self }),
    {
        Self { args, ..self }
    }

    /// Get all Chrome arguments: the fixed defaults followed by the
    /// custom ones, in order.
    pub fn all_chrome_args(&self) -> (r: Vec<String>)
        ensures
            r.deep_view() == chrome_args_spec() + self.args.deep_view(),
    {
        let mut all = chrome_args();
        proof {
            assert forall|k: int| 0 <= k < 6 implies #[trigger] all@[k]@ == chrome_args_spec()[k]
                by {
                assert(all.deep_view()[k] == chrome_args_spec()[k]);
            }
        }
        let n: usize = self.args.len();
        let mut i: usize = 0;
        while i < n
            invariant
                n == self.args@.len(),
                i <= n,
                all@.len() == 6 + i,
                forall|k: int| 0 <= k < 6 ==> #[trigger] all@[k]@ == chrome_args_spec()[k],
                forall|k: int| 0 <= k < i ==> #[trigger] all@[6 + k]@ == self.args@[k]@,
            decreases n - i,
        {
            all.push(self.args[i].clone());
            i = i + 1;
        }
        proof {
            assert forall|k: int| 0 <= k < all.deep_view().len() implies all.deep_view()[k] == (
            chrome_args_spec() + self.args.deep_view())[k] by {
                if k < 6 {
                    assert(all@[k]@ == chrome_args_spec()[k]);
                } else {
                    assert(all@[6 + (k - 6)]@ == self.args@[k - 6]@);
                }
            }
            assert(all.deep_view() =~~= chrome_args_spec() + self.args.deep_view());
        }
        all
    }

    /// The name of the per-engine default profile directory, used when
    /// no user data directory is forced.
    pub fn profile_dir_name(&self) -> (r: String)
        ensures
            r@ == engine_type_name(self.engine) + "-data"@,
    {
        let mut n = self.engine.to_string();
        n.append("-data");
        n
    }
}

/// Browser instance record.
///
/// Wraps what the library knows of a launched browser; the process
/// itself belongs to the host.
#[derive(Debug)]
pub struct Browser {
    /// The engine type being used.
    pub engine: EngineType,
    /// The user data directory.
    pub user_data_dir: String,
    /// Whether the browser is running headless.
    pub headless: bool,
}

/// Result of a browser launch.
#[derive(Debug)]
pub struct LaunchResult {
    /// The browser instance.
    pub browser: Browser,
}

} // verus!
