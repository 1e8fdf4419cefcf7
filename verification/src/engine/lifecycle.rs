//! Loading the conversion engine, and starting it anew.
//!
//! The engine is large and slow to load. It is loaded once, in the background, when it is
//! first needed; where that fails it is tried again the next time. Dictionary and model
//! are then loaded by the engine itself, each when it is told to.

use crate::text::{chars_of, concat3, decimal, decimal_u64};
use vstd::prelude::*;

verus! {

/// Whether the engine has its dictionary and its model.
#[derive(Clone, Copy, Debug, PartialEq, Eq, Structural)]
pub struct Readiness {
    pub dict: bool,
    pub model: bool,
}

/// What the engine is told to load.
#[derive(Clone, Copy, Debug, PartialEq, Eq, Structural)]
pub struct Loads {
    pub dict: bool,
    pub model: bool,
}

/// Nothing.
pub open spec fn no_loads() -> Loads {
    Loads { dict: false, model: false }
}

/// What is missing is loaded.
pub open spec fn loads_for(ready: Readiness) -> Loads {
    Loads { dict: !ready.dict, model: !ready.model }
}

/// What is missing is loaded.
pub fn missing_loads(ready: Readiness) -> (r: Loads)
    ensures
        r == loads_for(ready),
{
    Loads { dict: !ready.dict, model: !ready.model }
}

/// What is to be done about the engine.
#[derive(Clone, Copy, Debug, PartialEq, Eq, Structural)]
pub enum EngineStep {
    /// Load the engine in the background.
    Spawn,
    /// Load it now.
    Create,
    /// Tell the engine to load.
    Load { loads: Loads },
    /// Nothing more.
    Nothing,
}

/// The engine is needed. `started` says whether loading it was begun; `engine` what the
/// engine has, where it is there and not busy.
pub fn engine_start_bg_init(started: &mut bool, engine: Option<Readiness>) -> (r: EngineStep)
    ensures
        *final(started),
        r == (if !*old(started) {
            EngineStep::Spawn
        } else {
            match engine {
                Some(ready) => EngineStep::Load { loads: loads_for(ready) },
                None => EngineStep::Nothing,
            }
        }),
{
    if !*started {
        *started = true;
        return EngineStep::Spawn;
    }
    match engine {
        Some(ready) => EngineStep::Load { loads: missing_loads(ready) },
        None => EngineStep::Nothing,
    }
}

/// The background has the turn: an engine that is there already is not loaded again.
pub fn bg_init_begin(present: bool) -> (r: EngineStep)
    ensures
        r == (if present {
            EngineStep::Nothing
        } else {
            EngineStep::Create
        }),
{
    if present {
        EngineStep::Nothing
    } else {
        EngineStep::Create
    }
}

/// The engine was loaded, or that failed. Where it failed it can be begun again; where not,
/// it loads what it needs and the language bar is refreshed.
pub fn bg_init_end(
    started: &mut bool,
    langbar_pending: &mut bool,
    created: Option<Readiness>,
) -> (r: EngineStep)
    ensures
        match created {
            Some(ready) => r == (EngineStep::Load { loads: loads_for(ready) }) && *final(started)
                == *old(started) && *final(langbar_pending),
            None => r is Nothing && !*final(started) && *final(langbar_pending)
                == *old(langbar_pending),
        },
{
    match created {
        Some(ready) => {
            crate::tsf::language_bar::langbar_update_set(langbar_pending);
            EngineStep::Load { loads: missing_loads(ready) }
        },
        None => {
            *started = false;
            EngineStep::Nothing
        },
    }
}

/// The engine is to be there now: where it is not it is loaded.
pub fn engine_get_or_create(present: bool) -> (r: EngineStep)
    ensures
        r == (if present {
            EngineStep::Nothing
        } else {
            EngineStep::Create
        }),
{
    if present {
        EngineStep::Nothing
    } else {
        EngineStep::Create
    }
}

/// The engine is dropped, to be loaded when it is next needed.
pub fn engine_force_recreate(present: &mut bool)
    ensures
        !*final(present),
{
    *present = false;
}

/// The engine is started anew: it is dropped, loading can be begun again, and is begun in
/// the background.
pub fn engine_reload(present: &mut bool, started: &mut bool) -> (r: EngineStep)
    ensures
        !*final(present),
        !*final(started),
        r is Spawn,
{
    engine_force_recreate(present);
    *started = false;
    EngineStep::Spawn
}

/// What an engine that was started anew is told to load: where it has its dictionary
/// already, nothing.
pub open spec fn reload_loads_for(ready: Readiness) -> Loads {
    if ready.dict {
        no_loads()
    } else {
        loads_for(ready)
    }
}

/// An engine that was started anew is there.
pub fn engine_reload_end(created: Option<Readiness>) -> (r: EngineStep)
    ensures
        r == (match created {
            Some(ready) => EngineStep::Load { loads: reload_loads_for(ready) },
            None => EngineStep::Nothing,
        }),
{
    match created {
        Some(ready) => {
            if ready.dict {
                EngineStep::Load { loads: Loads { dict: false, model: false } }
            } else {
                EngineStep::Load { loads: missing_loads(ready) }
            }
        },
        None => EngineStep::Nothing,
    }
}

/// How often the memory of the graphics card is reported at most.
pub const GPU_MEMORY_LOG_INTERVAL_MS: u64 = 30_000;

/// The lower-case form of a letter of the alphabet.
pub open spec fn lower(c: char) -> char {
    if 'A' <= c && c <= 'Z' {
        ((c as u32) + 32) as char
    } else {
        c
    }
}

/// Whether the engine computes on the processor alone, by the name of its way to compute.
pub open spec fn is_cpu(backend: Seq<char>) -> bool {
    backend.map_values(|c: char| lower(c)) == seq!['c', 'p', 'u']
}

fn names_cpu(backend: &str) -> (r: bool)
    ensures
        r == is_cpu(backend@),
{
    let v = chars_of(backend);
    let ghost low = backend@.map_values(|c: char| lower(c));
    if v.len() != 3 {
        assert(low.len() != 3);
        return false;
    }
    let r = (v[0] == 'c' || v[0] == 'C') && (v[1] == 'p' || v[1] == 'P') && (v[2] == 'u' || v[2]
        == 'U');
    proof {
        assert(low[0] == lower(v@[0]) && low[1] == lower(v@[1]) && low[2] == lower(v@[2]));
        if r {
            assert(low =~= seq!['c', 'p', 'u']);
        } else {
            assert(seq!['c', 'p', 'u'][0] == 'c' && seq!['c', 'p', 'u'][1] == 'p' && seq![
                'c',
                'p',
                'u',
            ][2] == 'u');
        }
    }
    r
}

/// Whether the memory of the graphics card is to be reported: where that is wanted and the
/// card is used, from time to time. `last_ms` is when it was last.
pub fn maybe_log_gpu_memory(
    wanted: bool,
    backend: &str,
    n_gpu_layers: u32,
    now_ms: u64,
    last_ms: u64,
) -> (r: bool)
    ensures
        r == (wanted && !is_cpu(backend@) && n_gpu_layers != 0 && now_ms >= last_ms
            + GPU_MEMORY_LOG_INTERVAL_MS),
{
    if !wanted || names_cpu(backend) || n_gpu_layers == 0 {
        return false;
    }
    now_ms >= last_ms && now_ms - last_ms >= GPU_MEMORY_LOG_INTERVAL_MS
}

/// The graphics card that is looked at.
pub fn adapter_index(main_gpu: i32) -> (r: u32)
    ensures
        r == (if main_gpu > 0 {
            main_gpu as int
        } else {
            0
        }),
{
    if main_gpu > 0 {
        main_gpu as u32
    } else {
        0
    }
}

/// How the memory of the graphics card is reported.
pub open spec fn gpu_memory_text(
    backend: Seq<char>,
    adapter: Seq<char>,
    usage: u64,
    budget: u64,
    layers: u32,
) -> Seq<char> {
    let used = usage / 1048576;
    let all = budget / 1048576;
    "gpu memory: backend="@ + backend + " adapter="@ + adapter + " used="@ + decimal(used as nat)
        + "MB budget="@ + decimal(all as nat) + "MB available="@ + decimal(
        (if all >= used {
            (all - used) as nat
        } else {
            0
        }),
    ) + "MB n_gpu_layers="@ + decimal(layers as nat)
}

/// How the memory of the graphics card is reported, in megabytes.
pub fn gpu_memory_report(
    backend: &str,
    adapter: &str,
    usage: u64,
    budget: u64,
    layers: u32,
) -> (r: String)
    ensures
        r@ == gpu_memory_text(backend@, adapter@, usage, budget, layers),
{
    let used: u64 = usage / 1048576;
    let all: u64 = budget / 1048576;
    let mut s = concat3("gpu memory: backend=", backend, " adapter=");
    s.append(adapter);
    s.append(" used=");
    s.append(decimal_u64(used).as_str());
    s.append("MB budget=");
    s.append(decimal_u64(all).as_str());
    s.append("MB available=");
    s.append(decimal_u64(all.saturating_sub(used)).as_str());
    s.append("MB n_gpu_layers=");
    s.append(decimal_u64(layers as u64).as_str());
    s
}

/// An engine is told to load exactly what it lacks; one that was started anew and has its
/// dictionary is told nothing.
pub proof fn what_is_missing_is_loaded(ready: Readiness)
    ensures
        loads_for(ready).dict <==> !ready.dict,
        loads_for(ready).model <==> !ready.model,
        ready.dict ==> !reload_loads_for(ready).dict && !reload_loads_for(ready).model,
        !ready.dict ==> reload_loads_for(ready).dict && (reload_loads_for(ready).model
            <==> !ready.model),
{
}

/// Lower case goes by the alphabet: a capital becomes the small letter in its place, and
/// nothing else changes.
pub proof fn lower_case_goes_by_the_alphabet(c: char)
    ensures
        'A' <= c <= 'Z' ==> 'a' <= lower(c) <= 'z' && lower(c) as int - 'a' as int == c as int
            - 'A' as int,
        !('A' <= c <= 'Z') ==> lower(c) == c,
        lower(lower(c)) == lower(c),
{
}

/// The three letters name the processor in either case, and nothing else does.
pub proof fn processor_has_one_name(backend: Seq<char>)
    ensures
        is_cpu(backend) <==> backend.len() == 3 && (backend[0] == 'c' || backend[0] == 'C') && (
        backend[1] == 'p' || backend[1] == 'P') && (backend[2] == 'u' || backend[2] == 'U'),
{
    let low = backend.map_values(|c: char| lower(c));
    if backend.len() == 3 {
        lower_case_goes_by_the_alphabet(backend[0]);
        lower_case_goes_by_the_alphabet(backend[1]);
        lower_case_goes_by_the_alphabet(backend[2]);
        assert(low[0] == lower(backend[0]));
        assert(low[1] == lower(backend[1]));
        assert(low[2] == lower(backend[2]));
        if backend[0] == 'c' || backend[0] == 'C' {
            if (backend[1] == 'p' || backend[1] == 'P') && (backend[2] == 'u' || backend[2]
                == 'U') {
                assert(low =~= seq!['c', 'p', 'u']);
            }
        }
        let cpu = seq!['c', 'p', 'u'];
        assert(cpu[0] == 'c' && cpu[1] == 'p' && cpu[2] == 'u');
    } else {
        assert(low.len() == backend.len());
        assert(seq!['c', 'p', 'u'].len() == 3);
    }
}

/// The report gives megabytes, and what is available is what the budget leaves; nothing where
/// more is used than that.
pub proof fn report_gives_megabytes(
    backend: Seq<char>,
    adapter: Seq<char>,
    used: nat,
    budget: nat,
    odd_used: nat,
    odd_budget: nat,
    layers: u32,
)
    requires
        odd_used < 1048576,
        odd_budget < 1048576,
        used * 1048576 + odd_used <= u64::MAX,
        budget * 1048576 + odd_budget <= u64::MAX,
    ensures
        gpu_memory_text(
            backend,
            adapter,
            (used * 1048576 + odd_used) as u64,
            (budget * 1048576 + odd_budget) as u64,
            layers,
        ) == "gpu memory: backend="@ + backend + " adapter="@ + adapter + " used="@ + decimal(used)
            + "MB budget="@ + decimal(budget) + "MB available="@ + decimal(
            if budget > used {
                (budget - used) as nat
            } else {
                0
            },
        ) + "MB n_gpu_layers="@ + decimal(layers as nat),
{
    assert((used * 1048576 + odd_used) / 1048576 == used);
    assert((budget * 1048576 + odd_budget) / 1048576 == budget);
}

} // verus!
