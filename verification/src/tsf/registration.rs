//! Registering the text service with the system, and the record that is kept of it.

use crate::text::owned;
use vstd::prelude::*;

verus! {

/// A step of the registration.
#[derive(Clone, Copy, Debug, PartialEq, Eq, Structural)]
pub enum RegisterStep {
    /// Find out where the library lies.
    GetPath,
    Clsid,
    Profile,
    Category,
}

/// How the registration goes on.
#[derive(Clone, Copy, Debug, PartialEq, Eq, Structural)]
pub enum RegisterNext {
    Do { step: RegisterStep },
    Registered,
    Failed,
}

/// The name of a step in the record.
pub open spec fn step_name(step: RegisterStep) -> Seq<char> {
    match step {
        RegisterStep::GetPath => "get_path"@,
        RegisterStep::Clsid => "clsid_register"@,
        RegisterStep::Profile => "profile_register"@,
        RegisterStep::Category => "category_register"@,
    }
}

fn step_label(step: RegisterStep) -> (r: &'static str)
    ensures
        r@ == step_name(step),
{
    match step {
        RegisterStep::GetPath => "get_path",
        RegisterStep::Clsid => "clsid_register",
        RegisterStep::Profile => "profile_register",
        RegisterStep::Category => "category_register",
    }
}

/// How a step came out: what it found, which counts for the first one, or why it failed.
#[derive(Debug, PartialEq)]
pub enum RegisterResult {
    Done { found: String },
    Failed { error: String },
}

/// What follows a step that succeeded.
pub open spec fn following(step: RegisterStep) -> RegisterNext {
    match step {
        RegisterStep::GetPath => RegisterNext::Do { step: RegisterStep::Clsid },
        RegisterStep::Clsid => RegisterNext::Do { step: RegisterStep::Profile },
        RegisterStep::Profile => RegisterNext::Do { step: RegisterStep::Category },
        RegisterStep::Category => RegisterNext::Registered,
    }
}

/// What is added to the record for a step.
pub open spec fn recorded(step: RegisterStep, result: RegisterResult) -> Seq<char> {
    match result {
        RegisterResult::Done { found } => "OK: "@ + step_name(step) + "\n"@ + (match step {
            RegisterStep::GetPath => "dll_path: "@ + found@ + "\n"@,
            RegisterStep::Category => "DllRegisterServer success\n"@,
            _ => Seq::empty(),
        }),
        RegisterResult::Failed { error } => "FAIL: "@ + step_name(step) + " — "@ + error@ + "\n"@,
    }
}

/// The registration begins: the first step, and the first line of the record.
pub fn register_begin() -> (r: (RegisterNext, String))
    ensures
        r.0 == (RegisterNext::Do { step: RegisterStep::GetPath }),
        r.1@ == "DllRegisterServer start\n"@,
{
    (RegisterNext::Do { step: RegisterStep::GetPath }, owned("DllRegisterServer start\n"))
}

/// A step came out: it is recorded, and the next one follows or the registration has failed.
pub fn register_step(record: &mut String, step: RegisterStep, result: RegisterResult) -> (r:
    RegisterNext)
    ensures
        r == (match result {
            RegisterResult::Done { .. } => following(step),
            RegisterResult::Failed { .. } => RegisterNext::Failed,
        }),
        final(record)@ == old(record)@ + recorded(step, result),
{
    match result {
        RegisterResult::Failed { error } => {
            record.append("FAIL: ");
            record.append(step_label(step));
            record.append(" — ");
            record.append(error.as_str());
            record.append("\n");
            assert(record@ =~= old(record)@ + recorded(step, result));
            RegisterNext::Failed
        },
        RegisterResult::Done { found } => {
            record.append("OK: ");
            record.append(step_label(step));
            record.append("\n");
            let next = match step {
                RegisterStep::GetPath => {
                    record.append("dll_path: ");
                    record.append(found.as_str());
                    record.append("\n");
                    RegisterNext::Do { step: RegisterStep::Clsid }
                },
                RegisterStep::Clsid => RegisterNext::Do { step: RegisterStep::Profile },
                RegisterStep::Profile => RegisterNext::Do { step: RegisterStep::Category },
                RegisterStep::Category => {
                    record.append("DllRegisterServer success\n");
                    RegisterNext::Registered
                },
            };
            assert(record@ =~= old(record)@ + recorded(step, result));
            next
        },
    }
}

/// Where no step fails, the library's place, the class, the profile and the category follow
/// each other, and the service is registered after the last.
pub proof fn registration_does_every_step(step: RegisterStep)
    ensures
        following(step) == (RegisterNext::Do { step: RegisterStep::Clsid }) <==> step is GetPath,
        following(step) == (RegisterNext::Do { step: RegisterStep::Profile }) <==> step is Clsid,
        following(step) == (RegisterNext::Do { step: RegisterStep::Category }) <==> step
            is Profile,
        following(step) is Registered <==> step is Category,
        following(step) is Registered || following(step) is Do,
{
}

/// Every step leaves a line in the record with its name: an error with its reason, or that the
/// step succeeded; the place of the library and the end of the registration are noted too.
pub proof fn record_tells_of_every_step(step: RegisterStep, found: String, error: String)
    ensures
        ({
            let name = match step {
                RegisterStep::GetPath => "get_path"@,
                RegisterStep::Clsid => "clsid_register"@,
                RegisterStep::Profile => "profile_register"@,
                RegisterStep::Category => "category_register"@,
            };
            let ok = "OK: "@ + name + "\n"@;
            let done = recorded(step, RegisterResult::Done { found });
            &&& done.take(ok.len() as int) == ok
            &&& done.skip(ok.len() as int) == (match step {
                RegisterStep::GetPath => "dll_path: "@ + found@ + "\n"@,
                RegisterStep::Category => "DllRegisterServer success\n"@,
                _ => Seq::empty(),
            })
            &&& recorded(step, RegisterResult::Failed { error }) == "FAIL: "@ + name + " — "@
                + error@ + "\n"@
        }),
{
    let done = recorded(step, RegisterResult::Done { found });
    let ok = "OK: "@ + step_name(step) + "\n"@;
    assert(done.take(ok.len() as int) =~= ok);
}

} // verus!
