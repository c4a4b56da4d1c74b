//! The validation pipeline: stream the units of a binary through the
//! module-level checks, set function bodies aside, check them in declaration
//! order once the module has ended, and hand out the finished type model.
use vstd::prelude::*;
use crate::features::{FeatureConfig, FeatureVector, resolve, resolved};
use crate::model::{SchemaSig, TypeSchema};
use crate::project::{ProjectionError, TypeModel, lemma_projection_is_unique, projection};

verus! {

/// The module-level validator.
#[verifier::external_type_specification]
#[verifier::external_body]
pub struct ExValidator(wasmparser::Validator);

/// One unit of the binary stream.
#[verifier::external_type_specification]
#[verifier::external_body]
pub struct ExPayload<'a>(wasmparser::Payload<'a>);

/// The bytes of one function body.
#[verifier::external_type_specification]
#[verifier::external_body]
pub struct ExFunctionBody<'a>(wasmparser::FunctionBody<'a>);

/// The module context that a function check reads.
#[verifier::external_type_specification]
#[verifier::external_body]
pub struct ExValidatorResources(wasmparser::ValidatorResources);

/// The deferred state of one function check.
#[verifier::external_type_specification]
#[verifier::external_body]
#[verifier::reject_recursive_types(T)]
pub struct ExFuncToValidate<T>(wasmparser::FuncToValidate<T>);

/// A function check that holds the scratch pool.
#[verifier::external_type_specification]
#[verifier::external_body]
#[verifier::reject_recursive_types(T)]
pub struct ExFuncValidator<T>(wasmparser::FuncValidator<T>);

/// The reusable scratch pool of the function checks.
#[verifier::external_type_specification]
#[verifier::external_body]
pub struct ExFuncValidatorAllocations(wasmparser::FuncValidatorAllocations);

/// The engine's error: a message and an offset.
#[verifier::external_type_specification]
#[verifier::external_body]
pub struct ExBinaryReaderError(wasmparser::BinaryReaderError);

/// Why a validation call gave no schema.
#[derive(Debug)]
pub enum ValidationError {
    /// The binary is malformed or breaks a rule; the text says where and why.
    Rejected(String),
    /// The stream of units stopped without an end of module.
    Unfinished,
    /// The finished type model has a defect.
    Internal(ProjectionError),
}

/// What the module-level checks made of one unit.
pub enum Checked<'a> {
    /// The unit passed; nothing more to do.
    Plain,
    /// The unit passed and opens a nested module or component.
    Nested,
    /// The unit is a function body: to be checked once the module has ended.
    Function(wasmparser::FuncToValidate<wasmparser::ValidatorResources>, wasmparser::FunctionBody<'a>),
    /// The unit ends a module: the finished type model.
    End(wasmparser::types::Types),
}

/// What `Parser::new(0).parse_all` yields for a binary: its units in stream
/// order, ending with an error where the stream is malformed.
pub uninterp spec fn stream(bytes: Seq<u8>) -> Seq<Result<wasmparser::Payload<'static>, wasmparser::BinaryReaderError>>;

/// The feature vector that a validator was built with by
/// `Validator::new_with_features`.
pub uninterp spec fn configured(validator: wasmparser::Validator) -> FeatureVector;

/// What `Validator::payload` makes of a unit in a given state of the
/// validator: the validator's next state and its answer, moved into [`Checked`].
pub uninterp spec fn verdict(validator: wasmparser::Validator, unit: wasmparser::Payload<'static>) -> (
    wasmparser::Validator,
    Result<Checked<'static>, wasmparser::BinaryReaderError>,
);

/// The deferred function state that a function validator was built from by
/// `FuncToValidate::into_validator`.
pub uninterp spec fn deferred(
    validator: wasmparser::FuncValidator<wasmparser::ValidatorResources>,
) -> wasmparser::FuncToValidate<wasmparser::ValidatorResources>;

/// What `FuncValidator::validate` makes of a body for a deferred function.
pub uninterp spec fn body_verdict(
    function: wasmparser::FuncToValidate<wasmparser::ValidatorResources>,
    body: wasmparser::FunctionBody<'static>,
) -> Result<(), wasmparser::BinaryReaderError>;

/// The `Display` text of an engine error: its message and offset.
pub uninterp spec fn error_message(error: wasmparser::BinaryReaderError) -> Seq<char>;

/// A function body set aside with the deferred state of its check.
pub type Entry = (wasmparser::FuncToValidate<wasmparser::ValidatorResources>, wasmparser::FunctionBody<'static>);

/// The queue after one answer of the module-level checks: a function body joins its end.
pub open spec fn queue_after(queue: Seq<Entry>, checked: Checked<'static>) -> Seq<Entry> {
    match checked {
        Checked::Function(function, body) => queue.push((function, body)),
        _ => queue,
    }
}

/// The captured model after one answer of the module-level checks: an end of
/// module replaces it.
pub open spec fn captured_after(
    captured: Option<wasmparser::types::Types>,
    checked: Checked<'static>,
) -> Option<wasmparser::types::Types> {
    match checked {
        Checked::End(types) => Some(types),
        _ => captured,
    }
}

/// The streaming phase from unit `from` on: each unit goes to the validator
/// in stream order and its answer is gathered; the first error, of the stream
/// or of the validator, ends the phase.
pub open spec fn streamed(
    units: Seq<Result<wasmparser::Payload<'static>, wasmparser::BinaryReaderError>>,
    from: int,
    validator: wasmparser::Validator,
    queue: Seq<Entry>,
    captured: Option<wasmparser::types::Types>,
) -> Result<(Seq<Entry>, Option<wasmparser::types::Types>), wasmparser::BinaryReaderError>
    decreases units.len() - from,
{
    if from < 0 || from >= units.len() {
        Ok((queue, captured))
    } else {
        match units[from] {
            Err(error) => Err(error),
            Ok(unit) => match verdict(validator, unit).1 {
                Err(error) => Err(error),
                Ok(checked) => streamed(
                    units,
                    from + 1,
                    verdict(validator, unit).0,
                    queue_after(queue, checked),
                    captured_after(captured, checked),
                ),
            },
        }
    }
}

/// The replay phase from entry `from` on: the bodies are checked first in
/// first out, and the first failure is the result.
pub open spec fn replayed(queue: Seq<Entry>, from: int) -> Option<wasmparser::BinaryReaderError>
    decreases queue.len() - from,
{
    if from < 0 || from >= queue.len() {
        None
    } else {
        match body_verdict(queue[from].0, queue[from].1) {
            Err(error) => Some(error),
            Ok(_) => replayed(queue, from + 1),
        }
    }
}

/// `r` is a rejection with the text of `error`.
pub open spec fn rejects<T>(r: Result<T, ValidationError>, error: wasmparser::BinaryReaderError) -> bool {
    r is Err && r->Err_0 is Rejected && r->Err_0->Rejected_0@ == error_message(error)
}

/// What a validation run gives for a stream of units and a fresh validator:
/// the first error of the streaming phase; else the first failure of the
/// replay phase; else the model captured at the last end of module, or
/// `Unfinished` where no module ended.
pub open spec fn module_outcome(
    units: Seq<Result<wasmparser::Payload<'static>, wasmparser::BinaryReaderError>>,
    validator: wasmparser::Validator,
    r: Result<TypeModel, ValidationError>,
) -> bool {
    match streamed(units, 0, validator, Seq::empty(), None) {
        Err(error) => rejects(r, error),
        Ok((queue, captured)) => match replayed(queue, 0) {
            Some(error) => rejects(r, error),
            None => match captured {
                Some(model) => r is Ok && r->Ok_0.model() == model,
                None => r is Err && r->Err_0 is Unfinished,
            },
        },
    }
}

/// What a run with a given fresh validator gives in the end: its outcome, finished.
pub open spec fn ran(
    units: Seq<Result<wasmparser::Payload<'static>, wasmparser::BinaryReaderError>>,
    validator: wasmparser::Validator,
    r: Result<TypeSchema, ValidationError>,
) -> bool {
    exists|outcome: Result<TypeModel, ValidationError>|
        module_outcome(units, validator, outcome) && #[trigger] finished(outcome, r)
}

/// What checking a binary under a feature vector gives: the outcome of the
/// run with some validator that was built with that vector.
pub open spec fn checked(bytes: Seq<u8>, features: FeatureVector, r: Result<TypeModel, ValidationError>) -> bool {
    exists|validator: wasmparser::Validator|
        configured(validator) == features && #[trigger] module_outcome(stream(bytes), validator, r)
}

/// What a validation call gives for a binary under a feature vector: the
/// finished outcome of the run with some validator that was built with that
/// vector.
pub open spec fn validated(bytes: Seq<u8>, features: FeatureVector, r: Result<TypeSchema, ValidationError>) -> bool {
    exists|validator: wasmparser::Validator|
        configured(validator) == features && #[trigger] ran(stream(bytes), validator, r)
}

/// What the streaming phase has gathered so far.
pub struct Gathered<'a> {
    /// The function bodies set aside, in the order in which they were declared.
    pub queue: Vec<(wasmparser::FuncToValidate<wasmparser::ValidatorResources>, wasmparser::FunctionBody<'a>)>,
    /// The type model of the module that ended last, if one has ended.
    pub captured: Option<wasmparser::types::Types>,
}

impl<'a> Gathered<'a> {
    /// Nothing gathered yet.
    pub fn new() -> (g: Gathered<'a>)
        ensures
            g.queue@.len() == 0,
            g.captured is None,
    {
        Gathered { queue: Vec::new(), captured: None }
    }

    /// Takes in what the module-level checks made of one unit: a function
    /// body joins the end of the queue, an end of module replaces the captured
    /// model, and anything else changes nothing.
    pub fn absorb(&mut self, checked: Checked<'a>)
        ensures
            final(self).queue@ == queue_after(old(self).queue@, checked),
            final(self).captured == captured_after(old(self).captured, checked),
    {
        match checked {
            Checked::Function(function, body) => {
                self.queue.push((function, body));
            },
            Checked::End(types) => {
                self.captured = Some(types);
            },
            Checked::Nested => {},
            Checked::Plain => {},
        }
    }
}

/// Calls `Parser::new(0).parse_all` and collects the units it yields, in
/// stream order: they depend on the bytes alone.
#[verifier::external_body]
fn read_units<'a>(bytes: &'a [u8]) -> (units: Vec<Result<wasmparser::Payload<'a>, wasmparser::BinaryReaderError>>)
    ensures
        units@ == stream(bytes@),
{
    wasmparser::Parser::new(0).parse_all(bytes).collect()
}

/// Calls `Validator::new_with_features` with the flags of `features`, which
/// the validator keeps as its feature set.
#[verifier::external_body]
fn new_validator(features: &FeatureVector) -> (validator: wasmparser::Validator)
    ensures
        configured(validator) == *features,
{
    let f = features;
    wasmparser::Validator::new_with_features(wasmparser::WasmFeatures {
        mutable_global: f.mutable_global, saturating_float_to_int: f.saturating_float_to_int,
        sign_extension: f.sign_extension, reference_types: f.reference_types,
        multi_value: f.multi_value, bulk_memory: f.bulk_memory,
        simd: f.simd, relaxed_simd: f.relaxed_simd,
        threads: f.threads, tail_call: f.tail_call,
        floats: f.floats, multi_memory: f.multi_memory,
        exceptions: f.exceptions, memory64: f.memory64,
        extended_const: f.extended_const, component_model: f.component_model,
        function_references: f.function_references, memory_control: f.memory_control,
        gc: f.gc, component_model_values: f.component_model_values,
        component_model_nested_names: f.component_model_nested_names,
    })
}

/// Calls `Validator::payload` and moves its answer into [`Checked`]. The
/// answer and the validator's next state depend on its state and the unit alone.
#[verifier::external_body]
fn check_unit<'a>(validator: &mut wasmparser::Validator, unit: &wasmparser::Payload<'a>) -> (r: Result<
    Checked<'a>,
    wasmparser::BinaryReaderError,
>)
    ensures
        *final(validator) == verdict(*old(validator), *unit).0,
        r == verdict(*old(validator), *unit).1,
{
    match validator.payload(unit) {
        Ok(wasmparser::ValidPayload::Ok) => Ok(Checked::Plain),
        Ok(wasmparser::ValidPayload::Parser(_)) => Ok(Checked::Nested),
        Ok(wasmparser::ValidPayload::Func(function, body)) => Ok(Checked::Function(function, body)),
        Ok(wasmparser::ValidPayload::End(types)) => Ok(Checked::End(types)),
        Err(error) => Err(error),
    }
}

/// Calls `FuncValidatorAllocations::default`: an empty scratch pool.
#[verifier::external_body]
fn fresh_allocations() -> (pool: wasmparser::FuncValidatorAllocations)
{
    wasmparser::FuncValidatorAllocations::default()
}

/// Calls `FuncToValidate::into_validator`: the pool moves into the validator,
/// which is built from the deferred state.
#[verifier::external_body]
fn function_validator(
    function: wasmparser::FuncToValidate<wasmparser::ValidatorResources>,
    pool: wasmparser::FuncValidatorAllocations,
) -> (validator: wasmparser::FuncValidator<wasmparser::ValidatorResources>)
    ensures
        deferred(validator) == function,
{
    function.into_validator(pool)
}

/// Calls `FuncValidator::validate` on a validator that was just built. The
/// verdict depends on the deferred state and the body alone; the pool is
/// empty scratch space.
#[verifier::external_body]
fn check_body<'a>(
    validator: &mut wasmparser::FuncValidator<wasmparser::ValidatorResources>,
    body: &wasmparser::FunctionBody<'a>,
) -> (r: Result<(), wasmparser::BinaryReaderError>)
    ensures
        r == body_verdict(deferred(*old(validator)), *body),
{
    validator.validate(body)
}

/// Calls `FuncValidator::into_allocations`: the pool moves back out.
#[verifier::external_body]
fn reclaim(validator: wasmparser::FuncValidator<wasmparser::ValidatorResources>) -> (pool:
    wasmparser::FuncValidatorAllocations)
{
    validator.into_allocations()
}

/// Calls `to_string` on a `BinaryReaderError`: its message and offset as text.
#[verifier::external_body]
fn error_text(error: &wasmparser::BinaryReaderError) -> (text: String)
    ensures
        text@ == error_message(*error),
{
    error.to_string()
}

/// The items of `v` in reverse order.
pub fn reversed<T>(v: Vec<T>) -> (r: Vec<T>)
    ensures
        r@ == v@.reverse(),
{
    let mut rest = v;
    let mut r: Vec<T> = Vec::new();
    let ghost all = rest@;
    while rest.len() > 0
        invariant
            rest@.len() + r@.len() == all.len(),
            rest@ == all.subrange(0, rest@.len() as int),
            forall|j: int| 0 <= j < r@.len() ==> (#[trigger] r@[j]) == all[all.len() - 1 - j],
        decreases rest@.len(),
    {
        match rest.pop() {
            Some(item) => {
                r.push(item);
            },
            None => {},
        }
    }
    assert(r@ =~= all.reverse());
    r
}

/// Checks the function bodies of `queue` one after the other, first in first out,
/// with one scratch pool that moves into each check and back out of it. Stops at
/// the first body that fails.
fn replay<'a>(
    queue: Vec<(wasmparser::FuncToValidate<wasmparser::ValidatorResources>, wasmparser::FunctionBody<'a>)>,
) -> (r: Result<(), ValidationError>)
    ensures
        match replayed(queue@, 0) {
            Some(error) => rejects(r, error),
            None => r is Ok,
        },
{
    let mut rest = reversed(queue);
    let mut pool = fresh_allocations();
    while rest.len() > 0
        invariant
            rest@.len() <= queue@.len(),
            rest@ =~= queue@.reverse().subrange(0, rest@.len() as int),
            replayed(queue@, 0) == replayed(queue@, queue@.len() - rest@.len()),
        decreases rest@.len(),
    {
        let ghost done = queue@.len() - rest@.len();
        match rest.pop() {
            Some((function, body)) => {
                assert(queue@.reverse()[queue@.len() - 1 - done] == queue@[done]);
                assert((function, body) == queue@[done]);
                let mut validator = function_validator(function, pool);
                match check_body(&mut validator, &body) {
                    Ok(()) => {},
                    Err(error) => {
                        return Err(ValidationError::Rejected(error_text(&error)));
                    },
                }
                pool = reclaim(validator);
            },
            None => {},
        }
    }
    Ok(())
}

/// Validates a binary under a feature vector and hands out its type model.
///
/// The first unit that is malformed or breaks a rule, or after the end of the
/// stream the first function body that does, ends the call with its message.
/// A stream that ends without an end of module gives `Unfinished`.
pub fn check_module(bytes: &[u8], features: &FeatureVector) -> (r: Result<TypeModel, ValidationError>)
    ensures
        checked(bytes@, *features, r),
{
    let units = read_units(bytes);
    let mut validator = new_validator(features);
    let ghost fresh = validator;
    let mut gathered = Gathered::new();
    let mut index: usize = 0;
    assert(gathered.queue@ =~= Seq::empty());
    while index < units.len()
        invariant
            index <= units@.len(),
            units@ == stream(bytes@),
            configured(fresh) == *features,
            streamed(units@, 0, fresh, Seq::empty(), None) == streamed(
                units@,
                index as int,
                validator,
                gathered.queue@,
                gathered.captured,
            ),
        decreases units@.len() - index,
    {
        match &units[index] {
            Err(error) => {
                let r = Err(ValidationError::Rejected(error_text(error)));
                assert(module_outcome(stream(bytes@), fresh, r));
                return r;
            },
            Ok(unit) => {
                match check_unit(&mut validator, unit) {
                    Err(error) => {
                        let r = Err(ValidationError::Rejected(error_text(&error)));
                        assert(module_outcome(stream(bytes@), fresh, r));
                        return r;
                    },
                    Ok(checked) => {
                        gathered.absorb(checked);
                    },
                }
            },
        }
        index = index + 1;
    }
    let Gathered { queue, captured } = gathered;
    let r = match replay(queue) {
        Ok(()) => conclude(captured),
        Err(e) => Err(e),
    };
    assert(module_outcome(stream(bytes@), fresh, r));
    r
}

/// The result of the streaming and replay phases once both are through
/// without an error: the captured model, or `Unfinished` where the module
/// never ended.
pub fn conclude(captured: Option<wasmparser::types::Types>) -> (r: Result<TypeModel, ValidationError>)
    ensures
        match captured {
            Some(model) => r is Ok && r->Ok_0.model() == model,
            None => r is Err && r->Err_0 is Unfinished,
        },
{
    match captured {
        Some(model) => Ok(TypeModel(model)),
        None => Err(ValidationError::Unfinished),
    }
}

/// What [`finish`] makes of the outcome of the checks: an error stays that
/// error and nothing else is handed out; a model is projected, and a defect
/// found in it is an internal error.
pub open spec fn finished(outcome: Result<TypeModel, ValidationError>, r: Result<TypeSchema, ValidationError>) -> bool {
    match outcome {
        Err(e) => r is Err && r->Err_0 == e,
        Ok(types) => match r {
            Ok(schema) => projection(types.model(), Ok(schema@)),
            Err(ValidationError::Internal(defect)) => projection(types.model(), Err(defect)),
            Err(_) => false,
        },
    }
}

/// The view of a [`ValidationError`].
pub enum Failure {
    Rejected(Seq<char>),
    Unfinished,
    Internal(ProjectionError),
}

impl View for ValidationError {
    type V = Failure;

    open spec fn view(&self) -> Failure {
        match self {
            ValidationError::Rejected(text) => Failure::Rejected(text@),
            ValidationError::Unfinished => Failure::Unfinished,
            ValidationError::Internal(defect) => Failure::Internal(*defect),
        }
    }
}

/// The result of a call with its schema and its error taken by their views.
pub open spec fn result_view(r: Result<TypeSchema, ValidationError>) -> Result<SchemaSig, Failure> {
    match r {
        Ok(schema) => Ok(schema@),
        Err(e) => Err(e@),
    }
}

/// The first error that the engine gives in a run, if it gives one: that of
/// the streaming phase, else that of the replay phase.
pub open spec fn first_error(
    units: Seq<Result<wasmparser::Payload<'static>, wasmparser::BinaryReaderError>>,
    validator: wasmparser::Validator,
) -> Option<wasmparser::BinaryReaderError> {
    match streamed(units, 0, validator, Seq::empty(), None) {
        Err(error) => Some(error),
        Ok((queue, _)) => replayed(queue, 0),
    }
}

/// One run has one result: whatever the run of one validator over one
/// stream of units gives in the end is the same schema, or the same error
/// with the same text.
pub proof fn lemma_run_is_deterministic(
    units: Seq<Result<wasmparser::Payload<'static>, wasmparser::BinaryReaderError>>,
    validator: wasmparser::Validator,
    a: Result<TypeSchema, ValidationError>,
    b: Result<TypeSchema, ValidationError>,
)
    requires
        ran(units, validator, a),
        ran(units, validator, b),
    ensures
        result_view(a) == result_view(b),
{
    let oa = choose|o: Result<TypeModel, ValidationError>|
        module_outcome(units, validator, o) && #[trigger] finished(o, a);
    let ob = choose|o: Result<TypeModel, ValidationError>|
        module_outcome(units, validator, o) && #[trigger] finished(o, b);
    if oa is Ok {
        assert(oa->Ok_0.model() == ob->Ok_0.model());
        assert(oa == ob);
        lemma_finished_is_unique(oa, a, b);
    }
}

/// Where the engine gives an error in a run, on a unit or on a function
/// body, the run gives that error's text and no schema.
pub proof fn lemma_engine_error_gives_no_schema(
    units: Seq<Result<wasmparser::Payload<'static>, wasmparser::BinaryReaderError>>,
    validator: wasmparser::Validator,
    r: Result<TypeSchema, ValidationError>,
)
    requires
        ran(units, validator, r),
        first_error(units, validator) is Some,
    ensures
        r is Err,
        r->Err_0@ == Failure::Rejected(error_message(first_error(units, validator)->0)),
{
}

/// A malformed configuration validates as an absent one: the same results
/// are admitted for both, whatever the bytes.
pub proof fn lemma_malformed_validates_as_absent(bytes: Seq<u8>, r: Result<TypeSchema, ValidationError>)
    ensures
        validated(bytes, resolved(FeatureConfig::Malformed), r) == validated(
            bytes,
            resolved(FeatureConfig::Absent),
            r,
        ),
{
}

/// Where the checks end in an error, the call gives that error and no schema.
pub proof fn lemma_error_gives_no_schema(
    outcome: Result<TypeModel, ValidationError>,
    r: Result<TypeSchema, ValidationError>,
)
    requires
        finished(outcome, r),
        outcome is Err,
    ensures
        r is Err,
        r->Err_0 == outcome->Err_0,
{
}

/// One outcome of the checks is finished in one way only: two results for
/// it are the same error, or schemas with the same view.
pub proof fn lemma_finished_is_unique(
    outcome: Result<TypeModel, ValidationError>,
    a: Result<TypeSchema, ValidationError>,
    b: Result<TypeSchema, ValidationError>,
)
    requires
        finished(outcome, a),
        finished(outcome, b),
    ensures
        result_view(a) == result_view(b),
{
    if let Ok(types) = outcome {
        let defect_a: Result<SchemaSig, ProjectionError> = match a {
            Ok(schema) => Ok(schema@),
            Err(ValidationError::Internal(d)) => Err(d),
            Err(_) => arbitrary(),
        };
        let defect_b: Result<SchemaSig, ProjectionError> = match b {
            Ok(schema) => Ok(schema@),
            Err(ValidationError::Internal(d)) => Err(d),
            Err(_) => arbitrary(),
        };
        lemma_projection_is_unique(types.model(), defect_a, defect_b);
    }
}

/// Turns the outcome of the checks into the result of the call: all or nothing.
pub fn finish(outcome: Result<TypeModel, ValidationError>) -> (r: Result<TypeSchema, ValidationError>)
    ensures
        finished(outcome, r),
{
    match outcome {
        Err(e) => Err(e),
        Ok(types) => match types.serialize() {
            Ok(schema) => Ok(schema),
            Err(defect) => Err(ValidationError::Internal(defect)),
        },
    }
}

/// Validates a binary under a feature configuration and describes its types.
///
/// The configuration is resolved first, and a malformed one counts as absent;
/// the checks run under the resolved vector; their outcome is finished as
/// [`finished`] says.
pub fn validate(bytes: Vec<u8>, features: FeatureConfig) -> (r: Result<TypeSchema, ValidationError>)
    ensures
        validated(bytes@, resolved(features), r),
{
    let vector = resolve(features);
    let outcome = check_module(bytes.as_slice(), &vector);
    let r = finish(outcome);
    proof {
        let validator = choose|validator: wasmparser::Validator|
            configured(validator) == vector && #[trigger] module_outcome(stream(bytes@), validator, outcome);
        assert(ran(stream(bytes@), validator, r));
    }
    r
}

impl ValidationError {
    /// The message of this error as one text.
    pub fn message(&self) -> (text: String)
        ensures
            match *self {
                ValidationError::Rejected(m) => text@ == m@,
                ValidationError::Unfinished => text@ == "module did not end"@,
                ValidationError::Internal(ProjectionError::ForeignCoreType(_)) => text@
                    == "internal error: a core type is not a function, struct or array definition"@,
                ValidationError::Internal(ProjectionError::ForeignFunctionType(_)) => text@
                    == "internal error: the type of a function is not a function type"@,
                ValidationError::Internal(ProjectionError::CoreTypeSpace) => text@
                    == "internal error: too many core types"@,
                ValidationError::Internal(ProjectionError::TableSpace) => text@ == "internal error: too many tables"@,
            },
    {
        match self {
            ValidationError::Rejected(m) => m.clone(),
            ValidationError::Unfinished => "module did not end".to_owned(),
            ValidationError::Internal(ProjectionError::ForeignCoreType(_)) =>
                "internal error: a core type is not a function, struct or array definition".to_owned(),
            ValidationError::Internal(ProjectionError::ForeignFunctionType(_)) =>
                "internal error: the type of a function is not a function type".to_owned(),
            ValidationError::Internal(ProjectionError::CoreTypeSpace) => "internal error: too many core types".to_owned(),
            ValidationError::Internal(ProjectionError::TableSpace) => "internal error: too many tables".to_owned(),
        }
    }
}

} // verus!
