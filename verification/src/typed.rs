//! The adapter between raw component values and strongly typed callbacks.

use crate::raw_value::RawValue;
use crate::registry::EditOrView;
use vstd::prelude::*;

verus! {

/// A reference that a callback may or may not write through.
pub enum MaybeMutRef<'a, T> {
    /// The value can only be read.
    Ref(&'a T),
    /// The value can be read and changed.
    MutRef(&'a mut T),
}

/// What can go wrong between a raw value and a typed callback. None of these
/// stops a draw call. A value that cannot be decoded, or that holds no
/// instance, is declined: the registry then has it shown by the fallback
/// display, and nothing is written back.
#[derive(Clone, Copy, Debug, PartialEq, Eq, Structural)]
pub enum UiIssue {
    /// The raw value could not be decoded as the component's type.
    DeserializationFailure,
    /// The raw value held more than the one instance that a typed callback
    /// takes; the first one was used.
    CardinalityMismatch,
    /// The raw value held no instance to start from.
    MissingValue,
    /// The edited value could not be encoded again; the edit is discarded.
    ReserializationFailure,
}

/// The instance that a typed callback starts from, and what was wrong with
/// the raw value, if anything.
pub struct Decoded<C> {
    /// The first decoded instance, if there is one.
    pub value: Option<C>,
    /// What to report.
    pub issue: Option<UiIssue>,
}

/// What an edit-or-view handler returns: what the user changed, and what
/// went wrong, if anything.
pub struct TypedOutcome {
    /// The edited value, encoded again, where the user changed it.
    pub produced: Option<RawValue>,
    /// What to report.
    pub issue: Option<UiIssue>,
}

impl TypedOutcome {
    /// Whether the handler could not take the value: it could not decode it,
    /// or found no instance in it. Such a value is handed on to be shown by
    /// a less specific handler.
    pub open spec fn spec_declined(&self) -> bool {
        self.issue == Some(UiIssue::DeserializationFailure) || self.issue == Some(
            UiIssue::MissingValue,
        )
    }

    /// Whether the handler could not take the value.
    #[verifier::when_used_as_spec(spec_declined)]
    pub fn declined(&self) -> (b: bool)
        ensures
            b == self.spec_declined(),
    {
        match self.issue {
            Some(UiIssue::DeserializationFailure) => true,
            Some(UiIssue::MissingValue) => true,
            _ => false,
        }
    }

    /// The outcome of a handler that showed the value and left it as it was.
    pub fn unchanged() -> (r: Self)
        ensures
            r.produced is None,
            r.issue is None,
    {
        TypedOutcome { produced: None, issue: None }
    }

    /// The outcome of a handler in which the user changed the value to
    /// `value`.
    pub fn changed(value: RawValue) -> (r: Self)
        ensures
            r.produced == Some(value),
            r.issue is None,
    {
        TypedOutcome { produced: Some(value), issue: None }
    }
}

/// The instance that a typed callback starts from: the first decoded one.
pub open spec fn first_of<C, X>(decoded: Result<Vec<C>, X>) -> Option<C> {
    match decoded {
        Ok(values) => if values@.len() > 0 {
            Some(values@[0])
        } else {
            None
        },
        Err(_) => None,
    }
}

/// What is wrong with a decoded batch as the start of a typed callback.
pub open spec fn decode_issue<C, X>(decoded: Result<Vec<C>, X>) -> Option<UiIssue> {
    match decoded {
        Ok(values) => if values@.len() == 0 {
            Some(UiIssue::MissingValue)
        } else if values@.len() > 1 {
            Some(UiIssue::CardinalityMismatch)
        } else {
            None
        },
        Err(_) => Some(UiIssue::DeserializationFailure),
    }
}

/// Picks from a decoded batch the instance that a typed callback starts from.
pub fn first_decoded<C, X>(decoded: Result<Vec<C>, X>) -> (r: Decoded<C>)
    ensures
        r.value == first_of(decoded),
        r.issue == decode_issue(decoded),
{
    match decoded {
        Ok(values) => {
            let mut values = values;
            let count: usize = values.len();
            if count == 0 {
                Decoded { value: None, issue: Some(UiIssue::MissingValue) }
            } else {
                let first = values.swap_remove(0);
                let issue = if count > 1 {
                    Some(UiIssue::CardinalityMismatch)
                } else {
                    None
                };
                Decoded { value: Some(first), issue }
            }
        },
        Err(_) => Decoded { value: None, issue: Some(UiIssue::DeserializationFailure) },
    }
}

/// Decodes a raw value with `decode` and picks the instance to start from.
pub fn try_deserialize<C, D, X>(decode: &D, value: &RawValue) -> (r: Decoded<C>) where
    D: Fn(&RawValue) -> Result<Vec<C>, X>,

    requires
        call_requires(*decode, (value,)),
    ensures
        exists|decoded: Result<Vec<C>, X>| #[trigger]
            call_ensures(*decode, (value,), decoded) && r.value == first_of(decoded) && r.issue
                == decode_issue(decoded),
{
    let decoded = decode(value);
    first_decoded(decoded)
}

/// What an edit comes to once the edited value went through the encoder: the
/// encoded value, or nothing where encoding failed.
pub open spec fn reencoded_spec<X>(encoded: Result<RawValue, X>) -> TypedOutcome {
    match encoded {
        Ok(value) => TypedOutcome { produced: Some(value), issue: None },
        Err(_) => TypedOutcome { produced: None, issue: Some(UiIssue::ReserializationFailure) },
    }
}

/// What an edit comes to once the edited value went through the encoder.
pub fn reencoded<X>(encoded: Result<RawValue, X>) -> (r: TypedOutcome)
    ensures
        r == reencoded_spec(encoded),
{
    match encoded {
        Ok(value) => TypedOutcome { produced: Some(value), issue: None },
        Err(_) => TypedOutcome { produced: None, issue: Some(UiIssue::ReserializationFailure) },
    }
}

/// Whether `view` is what a typed callback is handed in `mode` for the
/// instance `start`: a read-only reference to it in view mode, a mutable one
/// in edit mode.
pub open spec fn starts_from<C>(view: MaybeMutRef<'_, C>, mode: EditOrView, start: C) -> bool {
    match mode {
        EditOrView::View => view matches MaybeMutRef::Ref(shown) && *shown == start,
        EditOrView::Edit => view matches MaybeMutRef::MutRef(edited) && *edited == start,
    }
}

/// Shows, and in edit mode lets the user change, a raw value through a typed
/// callback.
///
/// The raw value is decoded with `decode`; without a first instance nothing is
/// drawn. In view mode the callback gets a read-only reference and nothing
/// is produced, whatever it returns. In edit mode it gets a mutable
/// reference; where it reports a change, the value as the callback left it
/// goes through `encode`, and what comes out is produced. Where encoding
/// fails nothing is produced.
pub fn edit_or_view_typed<Ctx, Ui, C, F, D, S, X, Y>(
    callback: &F,
    decode: &D,
    encode: &S,
    ctx: &Ctx,
    ui: &mut Ui,
    value: &RawValue,
    mode: EditOrView,
) -> (r: TypedOutcome) where
    F: Fn(&Ctx, &mut Ui, &mut MaybeMutRef<'_, C>) -> bool,
    D: Fn(&RawValue) -> Result<Vec<C>, X>,
    S: Fn(&C) -> Result<RawValue, Y>,

    requires
        typed_total::<Ctx, Ui, C, F, D, S, X, Y>(*callback, *decode, *encode),
    ensures
        mode is View ==> r.produced is None,
        exists|decoded: Result<Vec<C>, X>| #[trigger]
            call_ensures(*decode, (value,), decoded) && (match first_of(decoded) {
                None => {
                    &&& r.produced is None
                    &&& r.issue == decode_issue(decoded)
                    &&& *final(ui) == *old(ui)
                },
                Some(start) => exists|u: &mut Ui, view: &mut MaybeMutRef<'_, C>, changed: bool|
                    ({
                        &&& *u == *old(ui)
                        &&& *final(u) == *final(ui)
                        &&& #[trigger] call_ensures(*callback, (ctx, u, view), changed)
                        &&& starts_from(*view, mode, start)
                        &&& !(mode is Edit && changed) ==> {
                            &&& r.produced is None
                            &&& r.issue == decode_issue(decoded)
                        }
                        &&& mode is Edit && changed ==> exists|
                            after: &C,
                            encoded: Result<RawValue, Y>,
                        |
                            ({
                                &&& #[trigger] call_ensures(*encode, (after,), encoded)
                                &&& *view matches MaybeMutRef::MutRef(edited)
                                &&& *final(edited) == *after
                                &&& r.produced == reencoded_spec(encoded).produced
                                &&& r.issue == (if encoded is Err {
                                    Some(UiIssue::ReserializationFailure)
                                } else {
                                    decode_issue(decoded)
                                })
                            })
                    }),
            }),
        r.produced matches Some(v) ==> exists|edited: &C| #[trigger]
            call_ensures(*encode, (edited,), Ok::<RawValue, Y>(v)),
        r.issue == Some(UiIssue::ReserializationFailure) ==> mode is Edit && r.produced is None,
        r.spec_declined() ==> r.produced is None && *final(ui) == *old(ui),
{
    let decoded = try_deserialize(decode, value);
    let issue = decoded.issue;
    match decoded.value {
        None => TypedOutcome { produced: None, issue },
        Some(start) => {
            let mut deserialized_value = start;
            match mode {
                EditOrView::View => {
                    let mut view = MaybeMutRef::Ref(&deserialized_value);
                    let _ = callback(ctx, ui, &mut view);
                    TypedOutcome { produced: None, issue }
                },
                EditOrView::Edit => {
                    let mut edit = MaybeMutRef::MutRef(&mut deserialized_value);
                    let changed = callback(ctx, ui, &mut edit);
                    if changed {
                        let encoded = encode(&deserialized_value);
                        let outcome = reencoded(encoded);
                        assert(outcome.produced matches Some(v) ==> call_ensures(
                            *encode,
                            (&deserialized_value,),
                            Ok::<RawValue, Y>(v),
                        ));
                        if outcome.issue.is_some() {
                            outcome
                        } else {
                            TypedOutcome { produced: outcome.produced, issue }
                        }
                    } else {
                        TypedOutcome { produced: None, issue }
                    }
                },
            }
        },
    }
}

/// Whether a typed callback, its decoder and its encoder can be called on
/// every input.
pub open spec fn typed_total<Ctx, Ui, C, F, D, S, X, Y>(callback: F, decode: D, encode: S) -> bool where
    F: Fn(&Ctx, &mut Ui, &mut MaybeMutRef<'_, C>) -> bool,
    D: Fn(&RawValue) -> Result<Vec<C>, X>,
    S: Fn(&C) -> Result<RawValue, Y>,
 {
    &&& forall|ctx: &Ctx, ui: &mut Ui, value: &mut MaybeMutRef<'_, C>|
        call_requires(callback, (ctx, ui, value))
    &&& forall|value: &RawValue| call_requires(decode, (value,))
    &&& forall|value: &C| call_requires(encode, (value,))
}

/// The edit-or-view handler made of a typed callback, its decoder and its
/// encoder: the handler to register for the component.
///
/// The handler does what [`edit_or_view_typed`] does. It declines a value
/// that cannot be decoded, or that holds no instance, without drawing
/// anything.
pub fn typed_edit_or_view<Ctx, Ui, C, F, D, S, X, Y>(callback: F, decode: D, encode: S) -> (handler:
    impl Fn(&Ctx, &mut Ui, &RawValue, EditOrView) -> TypedOutcome) where
    F: Fn(&Ctx, &mut Ui, &mut MaybeMutRef<'_, C>) -> bool,
    D: Fn(&RawValue) -> Result<Vec<C>, X>,
    S: Fn(&C) -> Result<RawValue, Y>,

    requires
        typed_total::<Ctx, Ui, C, F, D, S, X, Y>(callback, decode, encode),
    ensures
        forall|ctx: &Ctx, ui: &mut Ui, value: &RawValue, mode: EditOrView|
            call_requires(handler, (ctx, ui, value, mode)),
        forall|ctx: &Ctx, ui: &mut Ui, value: &RawValue, mode: EditOrView, r: TypedOutcome|
            #[trigger] call_ensures(handler, (ctx, ui, value, mode), r) ==> (mode is View
                ==> r.produced is None) && (r.spec_declined() ==> r.produced is None && *final(ui)
                == *ui) && (exists|decoded: Result<Vec<C>, X>| #[trigger]
                    call_ensures(decode, (value,), decoded) && (match first_of(decoded) {
                    None => ({
                        &&& r.produced is None
                        &&& r.issue == decode_issue(decoded)
                        &&& *final(ui) == *ui
                    }),
                    Some(start) => exists|u: &mut Ui, view: &mut MaybeMutRef<'_, C>, changed: bool|
                        ({
                            &&& *u == *ui
                            &&& *final(u) == *final(ui)
                            &&& #[trigger] call_ensures(callback, (ctx, u, view), changed)
                            &&& starts_from(*view, mode, start)
                            &&& !(mode is Edit && changed) ==> ({
                                &&& r.produced is None
                                &&& r.issue == decode_issue(decoded)
                            })
                            &&& mode is Edit && changed ==> exists|
                                after: &C,
                                encoded: Result<RawValue, Y>,
                            |
                                ({
                                    &&& #[trigger] call_ensures(encode, (after,), encoded)
                                    &&& *view matches MaybeMutRef::MutRef(edited)
                                    &&& *final(edited) == *after
                                    &&& r.produced == reencoded_spec(encoded).produced
                                    &&& r.issue == (if encoded is Err {
                                        Some(UiIssue::ReserializationFailure)
                                    } else {
                                        decode_issue(decoded)
                                    })
                                })
                        }),
                })),
{
    move |ctx: &Ctx, ui: &mut Ui, value: &RawValue, mode: EditOrView| -> (r: TypedOutcome)
        ensures
            mode is View ==> r.produced is None,
            r.spec_declined() ==> r.produced is None && *final(ui) == *old(ui),
            exists|decoded: Result<Vec<C>, X>| #[trigger]
                call_ensures(decode, (value,), decoded) && (match first_of(decoded) {
                None => ({
                    &&& r.produced is None
                    &&& r.issue == decode_issue(decoded)
                    &&& *final(ui) == *old(ui)
                }),
                Some(start) => exists|u: &mut Ui, view: &mut MaybeMutRef<'_, C>, changed: bool|
                    ({
                        &&& *u == *old(ui)
                        &&& *final(u) == *final(ui)
                        &&& #[trigger] call_ensures(callback, (ctx, u, view), changed)
                        &&& starts_from(*view, mode, start)
                        &&& !(mode is Edit && changed) ==> ({
                            &&& r.produced is None
                            &&& r.issue == decode_issue(decoded)
                        })
                        &&& mode is Edit && changed ==> exists|
                            after: &C,
                            encoded: Result<RawValue, Y>,
                        |
                            ({
                                &&& #[trigger] call_ensures(encode, (after,), encoded)
                                &&& *view matches MaybeMutRef::MutRef(edited)
                                &&& *final(edited) == *after
                                &&& r.produced == reencoded_spec(encoded).produced
                                &&& r.issue == (if encoded is Err {
                                    Some(UiIssue::ReserializationFailure)
                                } else {
                                    decode_issue(decoded)
                                })
                            })
                    }),
            }),
        { edit_or_view_typed(&callback, &decode, &encode, ctx, ui, value, mode) }
}

} // verus!
