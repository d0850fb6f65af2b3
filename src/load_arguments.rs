//! Command-line arguments of the load test: several configuration files, the
//! number of workers and the requests of each.

use vstd::prelude::*;
use crate::arguments::{check_path, path_fault, ArgumentError, ConfigPath};

verus! {

/// The first fault among configuration paths, in order.
pub open spec fn paths_fault(paths: Seq<ConfigPath>) -> Option<ArgumentError>
    decreases paths.len(),
{
    if paths.len() == 0 {
        None
    } else if path_fault(paths[0]) is Some {
        path_fault(paths[0])
    } else {
        paths_fault(paths.drop_first())
    }
}

/// The arguments of the load test.
#[derive(Debug, Clone, PartialEq, Eq)]
pub struct AppArguments {
    pub configs: Vec<ConfigPath>,
    pub requests_parallel_threads: u32,
    pub requests_per_thread: u64,
    pub verbose: u8,
}

impl AppArguments {
    /// The first fault of the arguments, in the order in which they are checked.
    pub open spec fn fault(&self) -> Option<ArgumentError> {
        if self.configs@.len() == 0 {
            Some(ArgumentError::NoConfigs)
        } else if paths_fault(self.configs@) is Some {
            paths_fault(self.configs@)
        } else if self.verbose >= 3 {
            Some(ArgumentError::VerboseOutOfRange)
        } else if self.requests_parallel_threads == 0 {
            Some(ArgumentError::ZeroThreads)
        } else if self.requests_per_thread == 0 {
            Some(ArgumentError::ZeroRequests)
        } else {
            None
        }
    }

    /// Takes the arguments as given, and refuses them at their first fault.
    pub fn new(
        configs: Vec<ConfigPath>,
        requests_parallel_threads: u32,
        requests_per_thread: u64,
        verbose: u8,
    ) -> (r: Result<AppArguments, ArgumentError>)
        ensures
            ({
                let args = AppArguments {
                    configs,
                    requests_parallel_threads,
                    requests_per_thread,
                    verbose,
                };
                match args.fault() {
                    Some(e) => r == Err::<AppArguments, _>(e),
                    None => r == Ok::<_, ArgumentError>(args),
                }
            }),
    {
        let args = AppArguments { configs, requests_parallel_threads, requests_per_thread, verbose };
        match args.validate_arguments() {
            Ok(()) => Ok(args),
            Err(e) => Err(e),
        }
    }

    /// Checks that there are configuration files and that each is a regular
    /// file, then the verbosity, the number of workers and their requests.
    pub fn validate_arguments(&self) -> (r: Result<(), ArgumentError>)
        ensures
            match self.fault() {
                Some(e) => r == Err::<(), _>(e),
                None => r is Ok,
            },
    {
        if self.configs.len() == 0 {
            return Err(ArgumentError::NoConfigs);
        }
        let mut i: usize = 0;
        assert(self.configs@.subrange(0, self.configs@.len() as int) =~= self.configs@);
        while i < self.configs.len()
            invariant
                i <= self.configs@.len(),
                paths_fault(self.configs@) == paths_fault(
                    self.configs@.subrange(i as int, self.configs@.len() as int),
                ),
            decreases self.configs@.len() - i,
        {
            let ghost rest = self.configs@.subrange(i as int, self.configs@.len() as int);
            assert(rest.drop_first() =~= self.configs@.subrange(
                i + 1,
                self.configs@.len() as int,
            ));
            match check_path(&self.configs[i]) {
                Ok(()) => {},
                Err(e) => return Err(e),
            }
            i += 1;
        }
        assert(self.configs@.subrange(i as int, self.configs@.len() as int).len() == 0);
        if self.verbose >= 3 {
            return Err(ArgumentError::VerboseOutOfRange);
        }
        if self.requests_parallel_threads == 0 {
            return Err(ArgumentError::ZeroThreads);
        }
        if self.requests_per_thread == 0 {
            return Err(ArgumentError::ZeroRequests);
        }
        Ok(())
    }
}

} // verus!
