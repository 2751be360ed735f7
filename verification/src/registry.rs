//! The calculation modules that are implemented, and how a request's module id selects one.
use vstd::prelude::*;

use crate::common;
use crate::models::FieldError;
use crate::text::str_eq;

verus! {

/// An implemented calculation module.
#[derive(Debug, Clone, Copy, PartialEq, Eq)]
pub enum ModuleKind {
    TimingBelt,
    BallScrew,
    Reducer,
    LinearModule,
    Motor,
    ServoStepper,
}

/// The id under which a module is requested.
pub open spec fn module_id(kind: ModuleKind) -> Seq<char> {
    match kind {
        ModuleKind::TimingBelt => "timing-belt-basic"@,
        ModuleKind::BallScrew => "ball-screw-servo"@,
        ModuleKind::Reducer => "reducer-basic"@,
        ModuleKind::LinearModule => "linear-module-selector"@,
        ModuleKind::Motor => "general-motor-power"@,
        ModuleKind::ServoStepper => "servo-stepper-sizing"@,
    }
}

/// The modules in the order in which they are listed: transmission first, then drive.
pub open spec fn registry() -> Seq<ModuleKind> {
    seq![
        ModuleKind::TimingBelt,
        ModuleKind::BallScrew,
        ModuleKind::Reducer,
        ModuleKind::LinearModule,
        ModuleKind::Motor,
        ModuleKind::ServoStepper,
    ]
}

/// The module requested under `id`, if one is implemented.
pub open spec fn module_with_id(id: Seq<char>) -> Option<ModuleKind> {
    if id == "timing-belt-basic"@ {
        Some(ModuleKind::TimingBelt)
    } else if id == "ball-screw-servo"@ {
        Some(ModuleKind::BallScrew)
    } else if id == "reducer-basic"@ {
        Some(ModuleKind::Reducer)
    } else if id == "linear-module-selector"@ {
        Some(ModuleKind::LinearModule)
    } else if id == "general-motor-power"@ {
        Some(ModuleKind::Motor)
    } else if id == "servo-stepper-sizing"@ {
        Some(ModuleKind::ServoStepper)
    } else {
        None
    }
}

impl ModuleKind {
    /// The id under which this module is requested.
    pub fn id(&self) -> (r: &'static str)
        ensures
            r@ == module_id(*self),
    {
        match self {
            ModuleKind::TimingBelt => "timing-belt-basic",
            ModuleKind::BallScrew => "ball-screw-servo",
            ModuleKind::Reducer => "reducer-basic",
            ModuleKind::LinearModule => "linear-module-selector",
            ModuleKind::Motor => "general-motor-power",
            ModuleKind::ServoStepper => "servo-stepper-sizing",
        }
    }
}

/// The implemented modules, in the order in which they are listed.
pub fn module_kinds() -> (r: Vec<ModuleKind>)
    ensures
        r@ == registry(),
{
    vec![
        ModuleKind::TimingBelt,
        ModuleKind::BallScrew,
        ModuleKind::Reducer,
        ModuleKind::LinearModule,
        ModuleKind::Motor,
        ModuleKind::ServoStepper,
    ]
}

/// The module requested under `module_id`; none when no implemented module has that id.
pub fn module_kind(module_id: &str) -> (r: Option<ModuleKind>)
    ensures
        r == module_with_id(module_id@),
{
    if str_eq(module_id, "timing-belt-basic") {
        Some(ModuleKind::TimingBelt)
    } else if str_eq(module_id, "ball-screw-servo") {
        Some(ModuleKind::BallScrew)
    } else if str_eq(module_id, "reducer-basic") {
        Some(ModuleKind::Reducer)
    } else if str_eq(module_id, "linear-module-selector") {
        Some(ModuleKind::LinearModule)
    } else if str_eq(module_id, "general-motor-power") {
        Some(ModuleKind::Motor)
    } else if str_eq(module_id, "servo-stepper-sizing") {
        Some(ModuleKind::ServoStepper)
    } else {
        None
    }
}

/// The module that computes a request for `module_id`; an error on the field
/// `moduleId` when none is implemented.
pub fn calculation_module(module_id: &str) -> (r: Result<ModuleKind, FieldError>)
    ensures
        match module_with_id(module_id@) {
            Some(k) => r == Ok::<ModuleKind, FieldError>(k),
            None => r matches Err(e) && e.field_id@ == "moduleId"@ && e.message@
                == "该模块尚未实现计算公式"@,
        },
{
    match module_kind(module_id) {
        Some(k) => Ok(k),
        None => common::field_error("moduleId", "该模块尚未实现计算公式"),
    }
}

/// Every implemented module is found again under its own id, and is listed.
pub proof fn lemma_module_id_round_trip(kind: ModuleKind)
    ensures
        module_with_id(module_id(kind)) == Some(kind),
        registry().contains(kind),
{
    reveal_strlit("timing-belt-basic");
    reveal_strlit("ball-screw-servo");
    reveal_strlit("reducer-basic");
    reveal_strlit("linear-module-selector");
    reveal_strlit("general-motor-power");
    reveal_strlit("servo-stepper-sizing");
    assert("timing-belt-basic"@.len() == 17);
    assert("ball-screw-servo"@.len() == 16);
    assert("reducer-basic"@.len() == 13);
    assert("linear-module-selector"@.len() == 22);
    assert("general-motor-power"@.len() == 19);
    assert("servo-stepper-sizing"@.len() == 20);
    let i: int = match kind {
        ModuleKind::TimingBelt => 0,
        ModuleKind::BallScrew => 1,
        ModuleKind::Reducer => 2,
        ModuleKind::LinearModule => 3,
        ModuleKind::Motor => 4,
        ModuleKind::ServoStepper => 5,
    };
    assert(registry()[i] == kind);
}

/// No two implemented modules share an id.
pub proof fn lemma_module_ids_unique(a: ModuleKind, b: ModuleKind)
    ensures
        module_id(a) == module_id(b) ==> a == b,
{
    lemma_module_id_round_trip(a);
    lemma_module_id_round_trip(b);
}

/// Every module listed is listed once.
pub proof fn lemma_registry_no_duplicates()
    ensures
        registry().no_duplicates(),
{
    assert forall|i: int, j: int|
        0 <= i < registry().len() && 0 <= j < registry().len() && i != j implies registry()[i]
        != registry()[j] by {
        assert(registry()[0] == ModuleKind::TimingBelt);
        assert(registry()[1] == ModuleKind::BallScrew);
        assert(registry()[2] == ModuleKind::Reducer);
        assert(registry()[3] == ModuleKind::LinearModule);
        assert(registry()[4] == ModuleKind::Motor);
        assert(registry()[5] == ModuleKind::ServoStepper);
    }
}

/// The request id that each module's definition advertises selects that module's
/// formula, and a module is selected by no other id.
pub proof fn lemma_request_ids_select_their_modules()
    ensures
        module_with_id("timing-belt-basic"@) == Some(ModuleKind::TimingBelt),
        module_with_id("ball-screw-servo"@) == Some(ModuleKind::BallScrew),
        module_with_id("reducer-basic"@) == Some(ModuleKind::Reducer),
        module_with_id("linear-module-selector"@) == Some(ModuleKind::LinearModule),
        module_with_id("general-motor-power"@) == Some(ModuleKind::Motor),
        module_with_id("servo-stepper-sizing"@) == Some(ModuleKind::ServoStepper),
        module_id(ModuleKind::TimingBelt) == "timing-belt-basic"@,
        module_id(ModuleKind::BallScrew) == "ball-screw-servo"@,
        module_id(ModuleKind::Reducer) == "reducer-basic"@,
        module_id(ModuleKind::LinearModule) == "linear-module-selector"@,
        module_id(ModuleKind::Motor) == "general-motor-power"@,
        module_id(ModuleKind::ServoStepper) == "servo-stepper-sizing"@,
        forall|id: Seq<char>, kind: ModuleKind|
            #![trigger module_with_id(id), module_id(kind)]
            module_with_id(id) == Some(kind) <==> id == module_id(kind),
{
    lemma_module_id_round_trip(ModuleKind::TimingBelt);
    lemma_module_id_round_trip(ModuleKind::BallScrew);
    lemma_module_id_round_trip(ModuleKind::Reducer);
    lemma_module_id_round_trip(ModuleKind::LinearModule);
    lemma_module_id_round_trip(ModuleKind::Motor);
    lemma_module_id_round_trip(ModuleKind::ServoStepper);
    assert forall|id: Seq<char>, kind: ModuleKind|
        #![trigger module_with_id(id), module_id(kind)]
        module_with_id(id) == Some(kind) <==> id == module_id(kind) by {
        lemma_module_id_round_trip(kind);
    }
}

} // verus!
