//! Binding named parameters to the placeholders of a statement.

use vstd::prelude::*;
use rusqlite::Statement;
use crate::engine::{self, name_model, placeholders_of};
use crate::error::{
    engine_text, is_engine_text, BindFailure, BindFailureModel, BridgeError, ErrorModel,
};
use crate::types::NamedParameters;
use crate::value::{native_of, to_native, DynamicValue, NativeModel, NativeValue};

verus! {

/// The names of placeholders that were read off a statement: each
/// placeholder's name, or `None` where it has none.
pub open spec fn names_of(placeholders: Seq<Option<String>>) -> Seq<Option<Seq<char>>> {
    Seq::new(placeholders.len(), |i: int| name_model(placeholders[i]))
}

/// The placeholder at position `i` has a name that the parameters lack.
pub open spec fn is_missing(
    names: Seq<Option<Seq<char>>>,
    parameters: Map<Seq<char>, DynamicValue>,
    i: int,
) -> bool {
    &&& 0 <= i < names.len()
    &&& names[i] matches Some(name)
    &&& !parameters.contains_key(name)
}

/// Some placeholder has a name that the parameters lack.
pub open spec fn has_missing(
    names: Seq<Option<Seq<char>>>,
    parameters: Map<Seq<char>, DynamicValue>,
) -> bool {
    exists|i: int| is_missing(names, parameters, i)
}

/// Position `i` is the first at which a parameter is missing.
pub open spec fn is_first_missing(
    names: Seq<Option<Seq<char>>>,
    parameters: Map<Seq<char>, DynamicValue>,
    i: int,
) -> bool {
    &&& is_missing(names, parameters, i)
    &&& forall|j: int| 0 <= j < i ==> !is_missing(names, parameters, j)
}

/// The failure names the first placeholder whose parameter is missing.
pub open spec fn reports_first_missing(
    names: Seq<Option<Seq<char>>>,
    parameters: Map<Seq<char>, DynamicValue>,
    failure: ErrorModel,
) -> bool {
    exists|i: int|
        #![auto]
        is_first_missing(names, parameters, i) && failure == ErrorModel::BindFailed(
            BindFailureModel::MissingParameter(names[i]->0),
        )
}

/// A failure that reports a missing parameter names one that the
/// parameters lack.
pub open spec fn names_absent_parameter(
    parameters: Map<Seq<char>, DynamicValue>,
    failure: ErrorModel,
) -> bool {
    failure matches ErrorModel::BindFailed(BindFailureModel::MissingParameter(name))
        ==> !parameters.contains_key(name)
}

/// No placeholder has a name, so there is nothing to bind.
pub open spec fn all_unnamed(names: Seq<Option<Seq<char>>>) -> bool {
    forall|i: int| 0 <= i < names.len() ==> names[i] is None
}

/// What is bound at position `i`: the native form of the parameter under
/// the placeholder's name, and nothing where the placeholder has no name.
pub open spec fn bound_at(
    names: Seq<Option<Seq<char>>>,
    parameters: Map<Seq<char>, DynamicValue>,
    i: int,
) -> Option<NativeModel> {
    match names[i] {
        Some(name) => Some(native_of(parameters[name]@)),
        None => None,
    }
}

/// The reading of a value that may be bound.
pub open spec fn bound_model(value: Option<NativeValue>) -> Option<NativeModel> {
    match value {
        Some(v) => Some(v@),
        None => None,
    }
}

/// What resolving returns: a value for every placeholder where none is
/// missing, and else the failure that names the first missing one.
pub open spec fn resolved(
    names: Seq<Option<Seq<char>>>,
    parameters: Map<Seq<char>, DynamicValue>,
    r: Result<Vec<Option<NativeValue>>, BridgeError>,
) -> bool {
    match r {
        Ok(bound) => {
            &&& bound@.len() == names.len()
            &&& !has_missing(names, parameters)
            &&& forall|i: int|
                0 <= i < names.len() ==> bound_model(#[trigger] bound@[i]) == bound_at(
                    names,
                    parameters,
                    i,
                )
        },
        Err(e) => reports_first_missing(names, parameters, e@),
    }
}

/// What binding returns, as far as the placeholders and the parameters
/// decide it.
///
/// A missing parameter is reported, the first one by name, and that is the
/// only outcome then. With none missing, binding succeeds unless the engine
/// refuses a value, and the failure then carries the engine's text. Where
/// no placeholder has a name the engine is not asked, and binding succeeds.
pub open spec fn bind_outcome(
    names: Seq<Option<Seq<char>>>,
    parameters: Map<Seq<char>, DynamicValue>,
    r: Result<(), BridgeError>,
) -> bool {
    if has_missing(names, parameters) {
        r matches Err(e) && reports_first_missing(names, parameters, e@)
    } else {
        match r {
            Ok(()) => true,
            Err(e) => {
                &&& !all_unnamed(names)
                &&& e@ matches ErrorModel::BindFailed(BindFailureModel::Engine(text))
                &&& is_engine_text(text)
            },
        }
    }
}

/// Works out what to bind to each placeholder of a statement.
///
/// `placeholders` holds the statement's placeholders in index order, each
/// with its name if it has one. Every named placeholder must have an entry
/// in `parameters`; entries that no placeholder names are ignored. On
/// success the result has, for each placeholder, the native value to bind,
/// and `None` for a placeholder without a name, which stays unbound. The
/// failure names the first placeholder that has no entry.
pub fn resolve_parameters(placeholders: &Vec<Option<String>>, parameters: &NamedParameters) -> (r:
    Result<Vec<Option<NativeValue>>, BridgeError>)
    ensures
        resolved(names_of(placeholders@), parameters@, r),
{
    let ghost names = names_of(placeholders@);
    let mut bound: Vec<Option<NativeValue>> = Vec::new();
    let mut i: usize = 0;
    while i < placeholders.len()
        invariant
            i <= placeholders@.len(),
            names == names_of(placeholders@),
            bound@.len() == i,
            forall|j: int| 0 <= j < i ==> !is_missing(names, parameters@, j),
            forall|j: int|
                0 <= j < i ==> bound_model(#[trigger] bound@[j]) == bound_at(names, parameters@, j),
        decreases placeholders@.len() - i,
    {
        match &placeholders[i] {
            None => {
                bound.push(None);
            },
            Some(name) => {
                match parameters.get(name.as_str()) {
                    None => {
                        assert(is_first_missing(names, parameters@, i as int));
                        return Err(
                            BridgeError::BindFailed(BindFailure::MissingParameter(name.clone())),
                        );
                    },
                    Some(value) => {
                        bound.push(Some(to_native(value)));
                    },
                }
            },
        }
        i = i + 1;
    }
    Ok(bound)
}

/// A statement that names a placeholder which the parameters lack does not
/// resolve: it fails with a missing parameter, at or before that
/// placeholder.
pub proof fn lemma_missing_parameter_fails(
    names: Seq<Option<Seq<char>>>,
    parameters: Map<Seq<char>, DynamicValue>,
    r: Result<Vec<Option<NativeValue>>, BridgeError>,
    i: int,
)
    requires
        resolved(names, parameters, r),
        is_missing(names, parameters, i),
    ensures
        r is Err,
        exists|k: int|
            #![auto]
            0 <= k <= i && is_first_missing(names, parameters, k) && r->Err_0@
                == ErrorModel::BindFailed(BindFailureModel::MissingParameter(names[k]->0)),
{
    let k = choose|k: int|
        #![auto]
        is_first_missing(names, parameters, k) && r->Err_0@ == ErrorModel::BindFailed(
            BindFailureModel::MissingParameter(names[k]->0),
        );
    assert(k <= i) by {
        if i < k {
            assert(!is_missing(names, parameters, i));
        }
    }
}

/// Parameters that cover every named placeholder always resolve, whatever
/// else they hold.
pub proof fn lemma_present_parameters_resolve(
    names: Seq<Option<Seq<char>>>,
    parameters: Map<Seq<char>, DynamicValue>,
    r: Result<Vec<Option<NativeValue>>, BridgeError>,
)
    requires
        resolved(names, parameters, r),
        !has_missing(names, parameters),
    ensures
        r is Ok,
{
    if r is Err {
        let k = choose|k: int| #![auto] is_first_missing(names, parameters, k);
        assert(is_missing(names, parameters, k));
    }
}

/// Binding a statement that names a placeholder which the parameters lack
/// fails with a missing parameter, whatever the engine would have said.
pub proof fn lemma_missing_parameter_is_not_bound(
    names: Seq<Option<Seq<char>>>,
    parameters: Map<Seq<char>, DynamicValue>,
    r: Result<(), BridgeError>,
    i: int,
)
    requires
        bind_outcome(names, parameters, r),
        is_missing(names, parameters, i),
    ensures
        r is Err,
        r->Err_0@ is BindFailed,
        r->Err_0@->BindFailed_0 is MissingParameter,
{
}

/// Reads the placeholders of a statement off the engine, in index order.
fn statement_placeholders(statement: &Statement<'_>) -> (placeholders: Vec<Option<String>>)
    ensures
        names_of(placeholders@) == placeholders_of(*statement),
{
    let count = engine::parameter_count(statement);
    let mut placeholders: Vec<Option<String>> = Vec::new();
    let mut index: usize = 0;
    while index < count
        invariant
            index <= count,
            count == placeholders_of(*statement).len(),
            placeholders@.len() == index,
            forall|j: int|
                0 <= j < index ==> name_model(#[trigger] placeholders@[j]) == placeholders_of(
                    *statement,
                )[j],
        decreases count - index,
    {
        index = index + 1;
        placeholders.push(engine::parameter_name(statement, index));
    }
    assert(names_of(placeholders@) =~= placeholders_of(*statement));
    placeholders
}

/// Binds to each named placeholder of the statement the parameter under
/// its name.
///
/// Nothing is bound unless every named placeholder has its parameter: a
/// missing one fails with `MissingParameter` before the engine is handed
/// any value. A value that the engine refuses fails with its text.
pub fn bind_named(statement: &mut Statement<'_>, parameters: &NamedParameters) -> (r: Result<
    (),
    BridgeError,
>)
    ensures
        bind_outcome(placeholders_of(*old(statement)), parameters@, r),
        r matches Err(e) ==> e@ is BindFailed && e@.has_engine_text(),
{
    let ghost names = placeholders_of(*statement);
    let placeholders = statement_placeholders(statement);
    let bound = match resolve_parameters(&placeholders, parameters) {
        Ok(bound) => bound,
        Err(failure) => {
            assert(has_missing(names, parameters@)) by {
                let k = choose|k: int| #![auto] is_first_missing(names, parameters@, k);
                assert(is_missing(names, parameters@, k));
            }
            return Err(failure);
        },
    };
    let mut i: usize = 0;
    while i < bound.len()
        invariant
            i <= bound@.len(),
            names == placeholders_of(*old(statement)),
            bound@.len() == names.len(),
            !has_missing(names, parameters@),
            forall|j: int|
                0 <= j < names.len() ==> bound_model(#[trigger] bound@[j]) == bound_at(
                    names,
                    parameters@,
                    j,
                ),
        decreases bound@.len() - i,
    {
        match &bound[i] {
            None => {},
            Some(value) => {
                assert(bound_model(bound@[i as int]) == Some(value@));
                assert(names[i as int] is Some);
                match engine::bind_value(statement, i + 1, value) {
                    Ok(()) => {},
                    Err(failure) => {
                        assert(!all_unnamed(names));
                        return Err(
                            BridgeError::BindFailed(BindFailure::Engine(engine_text(&failure))),
                        );
                    },
                }
            },
        }
        i = i + 1;
    }
    Ok(())
}

} // verus!
