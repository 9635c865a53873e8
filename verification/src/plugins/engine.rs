//! The scripting engine, as far as the loader needs it.
//!
//! Every item of this file stands for one thing of the `rhai` crate or of the
//! standard library and is believed, not proved. What a script does cannot be
//! foretold, so almost nothing is claimed here: the loader is verified for
//! every value that these functions may return.

use crate::plugins::dialogue_def::DialogueDef;
use crate::plugins::fish_def::FishDef;
use crate::plugins::loader::{add_choice_from_script, submit_fish};
use std::cell::RefCell;
use std::rc::Rc;
use vstd::prelude::*;

verus! {

/// `rhai::Engine`: an interpreter for scripts. Opaque.
#[verifier::external_type_specification]
#[verifier::external_body]
pub struct ExEngine(rhai::Engine);

/// `rhai::Dynamic`: a value of a script. Opaque.
#[verifier::external_type_specification]
#[verifier::external_body]
pub struct ExDynamic(rhai::Dynamic);

/// `std::cell::RefCell`: a place that is written through a shared reference.
/// Opaque.
#[verifier::external_type_specification]
#[verifier::external_body]
#[verifier::reject_recursive_types(T)]
pub struct ExRefCell<T: ?Sized>(std::cell::RefCell<T>);

/// Calls `Dynamic::as_int`: the integer that the value is, if it is one.
#[verifier::external_body]
pub(crate) fn dynamic_int(value: &rhai::Dynamic) -> Option<i64> {
    value.as_int().ok()
}

/// Calls `Dynamic::as_float`: the bits of the floating-point number that the
/// value is, if it is one.
#[verifier::external_body]
pub(crate) fn dynamic_float_bits(value: &rhai::Dynamic) -> Option<u64> {
    value.as_float().ok().map(|f| f.to_bits())
}

/// Calls `Dynamic::into_string` on a copy: the string that the value is, if
/// it is one.
#[verifier::external_body]
pub(crate) fn dynamic_string(value: &rhai::Dynamic) -> Option<String> {
    value.clone().into_string().ok()
}

/// Calls `Dynamic::try_cast` to `rhai::Array` on a copy: the elements of the
/// array that the value is, if it is one.
#[verifier::external_body]
pub(crate) fn dynamic_array(value: &rhai::Dynamic) -> Option<Vec<rhai::Dynamic>> {
    value.clone().try_cast::<rhai::Array>()
}

/// Calls `Dynamic::try_cast` to `rhai::Map` on a copy: the keys and values of
/// the map that the value is, if it is one, in the order of the keys.
#[verifier::external_body]
pub(crate) fn dynamic_entries(value: &rhai::Dynamic) -> Option<Vec<(String, rhai::Dynamic)>> {
    let map = value.clone().try_cast::<rhai::Map>()?;
    Some(map.into_iter().map(|(k, v)| (k.to_string(), v)).collect())
}

/// Calls `Dynamic::try_cast` to `DialogueDef` on a copy: the conversation
/// that the value is, if it is one.
#[verifier::external_body]
pub(crate) fn dynamic_dialogue(value: &rhai::Dynamic) -> Option<DialogueDef> {
    value.clone().try_cast::<DialogueDef>()
}

/// Calls `Engine::new`: a fresh interpreter with the standard functions of
/// the scripting language.
#[verifier::external_body]
pub(crate) fn new_engine() -> rhai::Engine {
    rhai::Engine::new()
}

/// Calls `Engine::set_max_operations`: from now on the interpreter gives up
/// on a script after `max_operations` operations (never, if that is zero).
#[verifier::external_body]
pub(crate) fn set_max_operations(engine: &mut rhai::Engine, max_operations: u64) {
    engine.set_max_operations(max_operations);
}

/// Calls `Engine::register_type_with_name`: makes the type `DialogueDef`
/// known to scripts under the name `name`.
#[verifier::external_body]
pub(crate) fn register_dialogue_type(engine: &mut rhai::Engine, name: &str) {
    engine.register_type_with_name::<DialogueDef>(name);
}

/// Calls `Engine::register_fn` five times: makes the five functions that
/// build a `DialogueDef` known to scripts, under the names `names`. Each is
/// one call of the function of this library that does the work.
#[verifier::external_body]
pub(crate) fn register_dialogue_api(engine: &mut rhai::Engine, names: &[&'static str; 5]) {
    engine.register_fn(names[0], |t: &str| DialogueDef::new(t));
    engine.register_fn(names[1], |d: &mut DialogueDef, i: &str, n: &str| d.add_speaker(i, n));
    engine.register_fn(names[2], |d: &mut DialogueDef, i: &str, s: &str, t: &str, n: &str| {
        d.add_text(i, s, t, n)
    });
    engine.register_fn(names[3], |d: &mut DialogueDef, i: &str, p: &str, o: rhai::Array| {
        add_choice_from_script(d, i, p, &o)
    });
    engine.register_fn(names[4], |d: &mut DialogueDef, i: &str| d.add_end(i));
}

/// Calls `Engine::register_fn`: makes the function that submits a character
/// known to scripts, under the name `name`. Each call of it by a script
/// hands the submitted map to `submit_fish`.
#[verifier::external_body]
pub(crate) fn register_fish_api(
    engine: &mut rhai::Engine,
    name: &str,
    sink: Rc<RefCell<Vec<Result<FishDef, String>>>>,
) {
    engine.register_fn(name, move |m: rhai::Map| submit_fish(&sink, &rhai::Dynamic::from_map(m)));
}

/// Calls `Engine::eval` for a script that returns nothing. An error of the
/// script, which includes running out of operations, comes back as its
/// message.
#[verifier::external_body]
pub(crate) fn eval_script(engine: &rhai::Engine, source: &str) -> Result<(), String> {
    engine.eval::<()>(source).map_err(|e| e.to_string())
}

/// Calls `Rc::new` and `RefCell::new`: an empty list that the interpreter's
/// callbacks and the loader share.
#[verifier::external_body]
pub(crate) fn new_sink() -> Rc<RefCell<Vec<Result<FishDef, String>>>> {
    Rc::new(RefCell::new(Vec::new()))
}

/// Calls `RefCell::borrow_mut`: appends `item` to the shared list.
#[verifier::external_body]
pub(crate) fn sink_push(
    sink: &Rc<RefCell<Vec<Result<FishDef, String>>>>,
    item: Result<FishDef, String>,
) {
    sink.borrow_mut().push(item);
}

/// Calls `RefCell::take`: what the shared list holds, which is then empty.
#[verifier::external_body]
pub(crate) fn sink_take(sink: &Rc<RefCell<Vec<Result<FishDef, String>>>>) -> Vec<
    Result<FishDef, String>,
> {
    sink.take()
}

} // verus!
