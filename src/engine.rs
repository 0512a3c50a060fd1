use vstd::prelude::*;

verus! {

/// Which parts of the engine to initialise besides its runtime.
#[derive(Debug, Clone, Copy, PartialEq, Eq, Structural, Default)]
pub struct EngineOptions {
    pub init_core: bool,
    pub init_ua: bool,
}

/// One initialisation call of the engine.
#[derive(Debug, Clone, Copy, PartialEq, Eq, Structural)]
pub enum InitStep {
    /// The runtime library.
    Runtime,
    /// The core, configured from the configuration text.
    Core,
    /// The user-agent layer, which needs the core.
    UserAgent,
}

/// The initialisation calls for the given options, in order: the runtime
/// always, the core when it or the user agent is asked for, the user agent
/// when asked for.
pub open spec fn init_order(o: EngineOptions) -> Seq<InitStep> {
    seq![InitStep::Runtime] + (if o.init_core || o.init_ua {
        seq![InitStep::Core]
    } else {
        seq![]
    }) + (if o.init_ua {
        seq![InitStep::UserAgent]
    } else {
        seq![]
    })
}

/// The initialisation calls for the given options (see `init_order`).
pub fn init_sequence(o: EngineOptions) -> (r: Vec<InitStep>)
    ensures
        r@ == init_order(o),
{
    let mut r: Vec<InitStep> = Vec::new();
    r.push(InitStep::Runtime);
    if o.init_core || o.init_ua {
        r.push(InitStep::Core);
    }
    if o.init_ua {
        r.push(InitStep::UserAgent);
    }
    proof {
        assert(r@ =~= init_order(o));
    }
    r
}

/// The configuration text handed to the engine core: the given text, or a
/// single empty line when none is given.
pub fn engine_config_text(conf: Option<&str>) -> (r: String)
    ensures
        conf matches Some(c) ==> r@ == c@,
        conf is None ==> r@ == "\n"@,
{
    match conf {
        Some(c) => String::from_str(c),
        None => String::from_str("\n"),
    }
}

} // verus!
