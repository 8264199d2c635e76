//! Loggers that are switched on by topic.

use vstd::prelude::*;

pub mod cpu_logger;

verus! {

/// A logger that is set up from a list of topic names.
pub trait FromEnvList: Sized {
    /// Whether the logger is the one that a list of names sets up.
    spec fn built_from(&self, env_list: Seq<Seq<char>>) -> bool;

    fn from_env_list(env_list: &[String]) -> (r: Self)
        ensures
            r.built_from(env_list.deep_view()),
    ;
}

/// The list of topic names that a logger is to be set up from.
pub struct Builder {
    list: Vec<String>,
}

impl Builder {
    /// The names of the list.
    pub closed spec fn names(&self) -> Seq<Seq<char>> {
        self.list.deep_view()
    }

    /// A builder for a list of names.
    pub fn new(list: Vec<String>) -> (r: Self)
        ensures
            r.names() == list.deep_view(),
    {
        Builder { list }
    }

    /// Sets the logger up.
    pub fn build<T>(self) -> (r: T)
        where
            T: FromEnvList,
        ensures
            r.built_from(self.names()),
    {
        let list = self.list.as_slice();
        proof {
            assert(list.deep_view() =~= self.list.deep_view());
        }
        T::from_env_list(list)
    }
}

/// A logger that runs a piece of logging code where its topic is switched
/// on.
pub trait DebugLogger: FromEnvList {
    /// Whether a topic is switched on.
    spec fn logs(&self, topic: Seq<char>) -> bool;

    /// Runs `f` where the topic `t` is switched on.
    fn log<F>(&self, t: &str, f: F)
        where
            F: Fn(),
        requires
            self.logs(t@) ==> f.requires(()),
        ensures
            self.logs(t@) ==> f.ensures((), ()),
    ;
}

} // verus!
