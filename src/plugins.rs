//! Which plugins are registered with the host framework at startup.
use vstd::prelude::*;

verus! {

/// The least severity that a log sink records.
#[derive(Clone, Copy, Debug, PartialEq, Eq, Structural)]
pub enum LogLevel {
    Off,
    Error,
    Warn,
    Info,
    Debug,
    Trace,
}

/// A capability registered with the host framework.
#[derive(Clone, Copy, Debug, PartialEq, Eq, Structural)]
pub enum Plugin {
    /// The persistent key-value store.
    Store,
    /// The logging sink, recording messages at `level` and above.
    Log { level: LogLevel },
}

/// The level at which debug builds log.
pub const DEBUG_LOG_LEVEL: LogLevel = LogLevel::Info;

/// The plugins given to the application builder, before the host starts.
pub open spec fn builder_spec() -> Seq<Plugin> {
    seq![Plugin::Store]
}

/// The plugins registered from the setup hook, once the host is up.
pub open spec fn setup_spec(debug_assertions: bool) -> Seq<Plugin> {
    if debug_assertions {
        seq![Plugin::Log { level: LogLevel::Info }]
    } else {
        seq![]
    }
}

/// Every plugin registered at startup, in the order of registration.
pub open spec fn registered(debug_assertions: bool) -> Seq<Plugin> {
    builder_spec() + setup_spec(debug_assertions)
}

/// Whether some plugin of `s` is a logging sink.
pub open spec fn has_log(s: Seq<Plugin>) -> bool {
    exists|i: int| 0 <= i < s.len() && (#[trigger] s[i]) is Log
}

/// The plugins to give to the application builder: the store, always.
pub fn builder_plugins() -> (r: Vec<Plugin>)
    ensures
        r@ == builder_spec(),
{
    let mut r: Vec<Plugin> = Vec::new();
    r.push(Plugin::Store);
    assert(r@ =~= builder_spec());
    r
}

/// The plugins to register from the setup hook: the logging sink at
/// [`DEBUG_LOG_LEVEL`] when the build has debug assertions, none otherwise.
pub fn setup_plugins(debug_assertions: bool) -> (r: Vec<Plugin>)
    ensures
        r@ == setup_spec(debug_assertions),
{
    let mut r: Vec<Plugin> = Vec::new();
    if debug_assertions {
        r.push(Plugin::Log { level: DEBUG_LOG_LEVEL });
    }
    assert(r@ =~= setup_spec(debug_assertions));
    r
}

/// Every plugin registered at startup, builder first, then setup.
pub fn startup_plugins(debug_assertions: bool) -> (r: Vec<Plugin>)
    ensures
        r@ == registered(debug_assertions),
        r@.contains(Plugin::Store),
        has_log(r@) <==> debug_assertions,
{
    let mut r = builder_plugins();
    let mut s = setup_plugins(debug_assertions);
    r.append(&mut s);
    proof {
        store_always_registered(debug_assertions);
        log_registered_iff_debug(debug_assertions);
    }
    r
}

/// The store plugin is registered whether or not the build has debug
/// assertions.
pub proof fn store_always_registered(debug_assertions: bool)
    ensures
        registered(debug_assertions).contains(Plugin::Store),
{
    assert(registered(debug_assertions)[0] == Plugin::Store);
}

/// A logging plugin is registered if and only if the build has debug
/// assertions, and then it records at the informational level and above.
pub proof fn log_registered_iff_debug(debug_assertions: bool)
    ensures
        has_log(registered(debug_assertions)) <==> debug_assertions,
        forall|i: int|
            0 <= i < registered(debug_assertions).len()
                && (#[trigger] registered(debug_assertions)[i]) is Log
                ==> registered(debug_assertions)[i] == (Plugin::Log { level: LogLevel::Info }),
{
    let s = registered(debug_assertions);
    if debug_assertions {
        assert(s[1] is Log);
    } else {
        assert(s =~= seq![Plugin::Store]);
    }
}

} // verus!
