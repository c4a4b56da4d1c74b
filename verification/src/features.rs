//! Feature flags: the sparse configuration a caller supplies and the complete
//! vector of booleans that the validation engine is built with.
use vstd::prelude::*;

verus! {

/// A sparse feature configuration: every flag may be left out.
///
/// `deterministic_only` is accepted for compatibility and has no effect.
#[derive(Clone, Copy, Debug)]
pub struct Features {
    pub mutable_global: Option<bool>,
    pub saturating_float_to_int: Option<bool>,
    pub sign_extension: Option<bool>,
    pub reference_types: Option<bool>,
    pub multi_value: Option<bool>,
    pub bulk_memory: Option<bool>,
    pub simd: Option<bool>,
    pub relaxed_simd: Option<bool>,
    pub threads: Option<bool>,
    pub tail_call: Option<bool>,
    pub floats: Option<bool>,
    pub multi_memory: Option<bool>,
    pub exceptions: Option<bool>,
    pub memory64: Option<bool>,
    pub extended_const: Option<bool>,
    pub component_model: Option<bool>,
    pub function_references: Option<bool>,
    pub memory_control: Option<bool>,
    pub gc: Option<bool>,
    pub component_model_values: Option<bool>,
    pub component_model_nested_names: Option<bool>,
    pub deterministic_only: Option<bool>,
}

/// A complete feature vector: one boolean per flag.
#[derive(Clone, Copy, Debug, PartialEq, Eq, Structural)]
pub struct FeatureVector {
    pub mutable_global: bool,
    pub saturating_float_to_int: bool,
    pub sign_extension: bool,
    pub reference_types: bool,
    pub multi_value: bool,
    pub bulk_memory: bool,
    pub simd: bool,
    pub relaxed_simd: bool,
    pub threads: bool,
    pub tail_call: bool,
    pub floats: bool,
    pub multi_memory: bool,
    pub exceptions: bool,
    pub memory64: bool,
    pub extended_const: bool,
    pub component_model: bool,
    pub function_references: bool,
    pub memory_control: bool,
    pub gc: bool,
    pub component_model_values: bool,
    pub component_model_nested_names: bool,
}

/// What a caller handed in as its feature configuration.
#[derive(Clone, Copy, Debug)]
pub enum FeatureConfig {
    /// No configuration was supplied.
    Absent,
    /// Something was supplied that does not have the shape of [`Features`].
    Malformed,
    /// A well-shaped, possibly sparse configuration.
    Present(Features),
}

/// The value of one flag: the supplied boolean, or the default where none was supplied.
pub open spec fn pick(supplied: Option<bool>, default: bool) -> bool {
    match supplied {
        Some(b) => b,
        None => default,
    }
}

/// The baseline vector, pinned to the first edition of the binary format:
/// floating point and mutable globals are on, every later proposal is off.
pub open spec fn baseline() -> FeatureVector {
    FeatureVector {
        mutable_global: true,
        saturating_float_to_int: false,
        sign_extension: false,
        reference_types: false,
        multi_value: false,
        bulk_memory: false,
        simd: false,
        relaxed_simd: false,
        threads: false,
        tail_call: false,
        floats: true,
        multi_memory: false,
        exceptions: false,
        memory64: false,
        extended_const: false,
        component_model: false,
        function_references: false,
        memory_control: false,
        gc: false,
        component_model_values: false,
        component_model_nested_names: false,
    }
}

/// `features` laid over `base`: supplied flags override, the others keep the value of `base`.
pub open spec fn overlay(features: Features, base: FeatureVector) -> FeatureVector {
    FeatureVector {
        mutable_global: pick(features.mutable_global, base.mutable_global),
        saturating_float_to_int: pick(features.saturating_float_to_int, base.saturating_float_to_int),
        sign_extension: pick(features.sign_extension, base.sign_extension),
        reference_types: pick(features.reference_types, base.reference_types),
        multi_value: pick(features.multi_value, base.multi_value),
        bulk_memory: pick(features.bulk_memory, base.bulk_memory),
        simd: pick(features.simd, base.simd),
        relaxed_simd: pick(features.relaxed_simd, base.relaxed_simd),
        threads: pick(features.threads, base.threads),
        tail_call: pick(features.tail_call, base.tail_call),
        floats: pick(features.floats, base.floats),
        multi_memory: pick(features.multi_memory, base.multi_memory),
        exceptions: pick(features.exceptions, base.exceptions),
        memory64: pick(features.memory64, base.memory64),
        extended_const: pick(features.extended_const, base.extended_const),
        component_model: pick(features.component_model, base.component_model),
        function_references: pick(features.function_references, base.function_references),
        memory_control: pick(features.memory_control, base.memory_control),
        gc: pick(features.gc, base.gc),
        component_model_values: pick(features.component_model_values, base.component_model_values),
        component_model_nested_names: pick(features.component_model_nested_names, base.component_model_nested_names),
    }
}

/// The vector that a configuration resolves to.
pub open spec fn resolved(config: FeatureConfig) -> FeatureVector {
    match config {
        FeatureConfig::Absent => baseline(),
        FeatureConfig::Malformed => baseline(),
        FeatureConfig::Present(features) => overlay(features, baseline()),
    }
}

fn pick_flag(supplied: Option<bool>, default: bool) -> (b: bool)
    ensures
        b == pick(supplied, default),
{
    match supplied {
        Some(b) => b,
        None => default,
    }
}

impl Features {
    /// A configuration that supplies no flag.
    pub fn empty() -> (features: Features)
        ensures
            forall|base: FeatureVector| overlay(features, base) == base,
            features.deterministic_only is None,
    {
        Features {
            mutable_global: None,
            saturating_float_to_int: None,
            sign_extension: None,
            reference_types: None,
            multi_value: None,
            bulk_memory: None,
            simd: None,
            relaxed_simd: None,
            threads: None,
            tail_call: None,
            floats: None,
            multi_memory: None,
            exceptions: None,
            memory64: None,
            extended_const: None,
            component_model: None,
            function_references: None,
            memory_control: None,
            gc: None,
            component_model_values: None,
            component_model_nested_names: None,
            deterministic_only: None,
        }
    }

    /// Lays this configuration over `base`.
    pub fn over(self, base: FeatureVector) -> (fv: FeatureVector)
        ensures
            fv == overlay(self, base),
    {
        FeatureVector {
            mutable_global: pick_flag(self.mutable_global, base.mutable_global),
            saturating_float_to_int: pick_flag(self.saturating_float_to_int, base.saturating_float_to_int),
            sign_extension: pick_flag(self.sign_extension, base.sign_extension),
            reference_types: pick_flag(self.reference_types, base.reference_types),
            multi_value: pick_flag(self.multi_value, base.multi_value),
            bulk_memory: pick_flag(self.bulk_memory, base.bulk_memory),
            simd: pick_flag(self.simd, base.simd),
            relaxed_simd: pick_flag(self.relaxed_simd, base.relaxed_simd),
            threads: pick_flag(self.threads, base.threads),
            tail_call: pick_flag(self.tail_call, base.tail_call),
            floats: pick_flag(self.floats, base.floats),
            multi_memory: pick_flag(self.multi_memory, base.multi_memory),
            exceptions: pick_flag(self.exceptions, base.exceptions),
            memory64: pick_flag(self.memory64, base.memory64),
            extended_const: pick_flag(self.extended_const, base.extended_const),
            component_model: pick_flag(self.component_model, base.component_model),
            function_references: pick_flag(self.function_references, base.function_references),
            memory_control: pick_flag(self.memory_control, base.memory_control),
            gc: pick_flag(self.gc, base.gc),
            component_model_values: pick_flag(self.component_model_values, base.component_model_values),
            component_model_nested_names: pick_flag(self.component_model_nested_names, base.component_model_nested_names),
        }
    }

    /// The complete vector for this configuration: supplied flags as given,
    /// the others at their baseline default.
    pub fn into_vector(self) -> (fv: FeatureVector)
        ensures
            fv == overlay(self, baseline()),
    {
        self.over(FeatureVector::baseline())
    }
}

impl FeatureVector {
    /// The baseline vector.
    pub fn baseline() -> (fv: FeatureVector)
        ensures
            fv == baseline(),
    {
        FeatureVector {
            mutable_global: true,
            saturating_float_to_int: false,
            sign_extension: false,
            reference_types: false,
            multi_value: false,
            bulk_memory: false,
            simd: false,
            relaxed_simd: false,
            threads: false,
            tail_call: false,
            floats: true,
            multi_memory: false,
            exceptions: false,
            memory64: false,
            extended_const: false,
            component_model: false,
            function_references: false,
            memory_control: false,
            gc: false,
            component_model_values: false,
            component_model_nested_names: false,
        }
    }
}

/// Resolves a configuration into a complete feature vector. A malformed
/// configuration is not an error: it resolves as an absent one does.
pub fn resolve(config: FeatureConfig) -> (fv: FeatureVector)
    ensures
        fv == resolved(config),
{
    match config {
        FeatureConfig::Absent => FeatureVector::baseline(),
        FeatureConfig::Malformed => FeatureVector::baseline(),
        FeatureConfig::Present(features) => features.into_vector(),
    }
}

/// Whether resolving a configuration owes the caller a diagnostic: a
/// malformed one does, since it is replaced by the baseline; no other does.
pub fn diagnostic_owed(config: &FeatureConfig) -> (owed: bool)
    ensures
        owed == (*config is Malformed),
{
    match config {
        FeatureConfig::Malformed => true,
        FeatureConfig::Absent => false,
        FeatureConfig::Present(_) => false,
    }
}

/// A malformed configuration resolves to the same vector as an absent one.
pub proof fn lemma_malformed_is_absent()
    ensures
        resolved(FeatureConfig::Malformed) == resolved(FeatureConfig::Absent),
{
}

/// Supplying one flag changes that flag of the resolved vector and no other:
/// the vector is the one resolved without it, with that one entry replaced.
pub proof fn lemma_one_flag_one_entry(features: Features, base: FeatureVector, on: bool)
    ensures
        overlay(Features { mutable_global: Some(on), ..features }, base) == (FeatureVector { mutable_global: on, ..overlay(features, base) }),
        overlay(Features { saturating_float_to_int: Some(on), ..features }, base) == (FeatureVector { saturating_float_to_int: on, ..overlay(features, base) }),
        overlay(Features { sign_extension: Some(on), ..features }, base) == (FeatureVector { sign_extension: on, ..overlay(features, base) }),
        overlay(Features { reference_types: Some(on), ..features }, base) == (FeatureVector { reference_types: on, ..overlay(features, base) }),
        overlay(Features { multi_value: Some(on), ..features }, base) == (FeatureVector { multi_value: on, ..overlay(features, base) }),
        overlay(Features { bulk_memory: Some(on), ..features }, base) == (FeatureVector { bulk_memory: on, ..overlay(features, base) }),
        overlay(Features { simd: Some(on), ..features }, base) == (FeatureVector { simd: on, ..overlay(features, base) }),
        overlay(Features { relaxed_simd: Some(on), ..features }, base) == (FeatureVector { relaxed_simd: on, ..overlay(features, base) }),
        overlay(Features { threads: Some(on), ..features }, base) == (FeatureVector { threads: on, ..overlay(features, base) }),
        overlay(Features { tail_call: Some(on), ..features }, base) == (FeatureVector { tail_call: on, ..overlay(features, base) }),
        overlay(Features { floats: Some(on), ..features }, base) == (FeatureVector { floats: on, ..overlay(features, base) }),
        overlay(Features { multi_memory: Some(on), ..features }, base) == (FeatureVector { multi_memory: on, ..overlay(features, base) }),
        overlay(Features { exceptions: Some(on), ..features }, base) == (FeatureVector { exceptions: on, ..overlay(features, base) }),
        overlay(Features { memory64: Some(on), ..features }, base) == (FeatureVector { memory64: on, ..overlay(features, base) }),
        overlay(Features { extended_const: Some(on), ..features }, base) == (FeatureVector { extended_const: on, ..overlay(features, base) }),
        overlay(Features { component_model: Some(on), ..features }, base) == (FeatureVector { component_model: on, ..overlay(features, base) }),
        overlay(Features { function_references: Some(on), ..features }, base) == (FeatureVector { function_references: on, ..overlay(features, base) }),
        overlay(Features { memory_control: Some(on), ..features }, base) == (FeatureVector { memory_control: on, ..overlay(features, base) }),
        overlay(Features { gc: Some(on), ..features }, base) == (FeatureVector { gc: on, ..overlay(features, base) }),
        overlay(Features { component_model_values: Some(on), ..features }, base) == (FeatureVector { component_model_values: on, ..overlay(features, base) }),
        overlay(Features { component_model_nested_names: Some(on), ..features }, base) == (FeatureVector { component_model_nested_names: on, ..overlay(features, base) }),
{
}

} // verus!
