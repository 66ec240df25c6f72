//! The signature classifier: how a function's declared result is returned.
//!
//! Applied once per function and deterministic: a missing result yields no
//! return value and no out-parameters; `option<T>` under flattening yields a
//! boolean return plus one out-parameter of type `T`; `result<Ok, Err>` under
//! flattening yields a boolean return plus out-parameters `[Ok?, Err?]` in
//! that order; enums, flags, handles and primitive scalars are returned by
//! value; every other composite (and option/result when flattening is off) is
//! returned indirectly through a single out-parameter.

use crate::err::GenError;
use crate::wit::{Resolve, Type, TypeDefKind};
use vstd::prelude::*;

verus! {

/// The scalar part of a classified return.
#[derive(Clone, Copy)]
pub enum Scalar {
    /// No return value.
    Void,
    /// A boolean return: true when the option is some; the payload is written
    /// through the single out-parameter.
    OptionBool(Type),
    /// A boolean return: true on success; the ok and err payloads (where
    /// present) are written through out-parameters, ok first.
    ResultBool(Option<Type>, Option<Type>),
    /// Returned directly by value.
    Type(Type),
}

/// A classified return: the scalar part and the ordered indirect payloads.
pub struct Return {
    /// What the generated function returns directly, once classified.
    pub scalar: Option<Scalar>,
    /// The payload types returned through out-parameters, in order.
    pub retptrs: Vec<Type>,
}

/// The abstract value of a [`Return`].
#[verifier::ext_equal]
pub ghost struct RetSpec {
    pub scalar: Option<Scalar>,
    pub retptrs: Seq<Type>,
}

/// The classification of a single declared result type `ty` (with `orig` the
/// type as declared, kept for rendering), or `None` where the type involves an
/// unsupported feature (futures, streams, error contexts, bare resources).
pub open spec fn spec_return_single(
    resolve: Resolve,
    ty: Type,
    orig: Type,
    flat: bool,
) -> Option<RetSpec>
    decreases ty.rank(),
    when resolve.wf() && resolve.ty_below(ty, resolve.types.len() as int)
{
    match ty {
        Type::Str => Some(RetSpec { scalar: None, retptrs: seq![orig] }),
        Type::Id(id) => match resolve.types[id as int].kind {
            TypeDefKind::Alias(t) => spec_return_single(resolve, t, orig, flat),
            TypeDefKind::Flags(_) | TypeDefKind::Enum(_) | TypeDefKind::Handle(_) => Some(
                RetSpec { scalar: Some(Scalar::Type(orig)), retptrs: Seq::empty() },
            ),
            TypeDefKind::OptionOf(t) => if flat {
                Some(RetSpec { scalar: Some(Scalar::OptionBool(t)), retptrs: seq![t] })
            } else {
                Some(RetSpec { scalar: None, retptrs: seq![orig] })
            },
            TypeDefKind::ResultOf(ok, err) => if flat {
                Some(
                    RetSpec {
                        scalar: Some(Scalar::ResultBool(ok, err)),
                        retptrs: (match ok {
                            Some(t) => seq![t],
                            None => Seq::empty(),
                        }) + (match err {
                            Some(t) => seq![t],
                            None => Seq::empty(),
                        }),
                    },
                )
            } else {
                Some(RetSpec { scalar: None, retptrs: seq![orig] })
            },
            TypeDefKind::Tuple(_) | TypeDefKind::Record(_) | TypeDefKind::ListOf(_)
                | TypeDefKind::Variant(_) => Some(
                RetSpec { scalar: None, retptrs: seq![orig] },
            ),
            _ => None,
        },
        _ => Some(RetSpec { scalar: Some(Scalar::Type(orig)), retptrs: Seq::empty() }),
    }
}

/// The classification of a whole function result: no result is `Void`; one
/// result classifies as [`spec_return_single`] says.
pub open spec fn spec_classify_ret(resolve: Resolve, result: Option<Type>, flat: bool) -> Option<
    RetSpec,
> {
    match result {
        None => Some(RetSpec { scalar: Some(Scalar::Void), retptrs: Seq::empty() }),
        Some(ty) => spec_return_single(resolve, ty, ty, flat),
    }
}

impl Return {
    /// The abstract value of this classification.
    pub open spec fn view(&self) -> RetSpec {
        RetSpec { scalar: self.scalar, retptrs: self.retptrs@ }
    }
}

/// Classify one result type; see [`spec_return_single`]. `flat` enables
/// signature flattening.
pub fn return_single(resolve: &Resolve, ty: &Type, orig: &Type, flat: bool) -> (r: Result<
    Return,
    GenError,
>)
    requires
        resolve.wf(),
        resolve.ty_below(*ty, resolve.types.len() as int),
    ensures
        r matches Ok(ret) ==> Some(ret@) == spec_return_single(*resolve, *ty, *orig, flat),
        r is Err <==> spec_return_single(*resolve, *ty, *orig, flat) is None,
    decreases ty.rank(),
{
    match ty {
        Type::Str => {
            let mut retptrs: Vec<Type> = Vec::new();
            retptrs.push(*orig);
            proof {
                assert(retptrs@ =~= seq![*orig]);
            }
            Ok(Return { scalar: None, retptrs })
        },
        Type::Id(id) => {
            let idv = *id;
            proof {
                assert(resolve.kind_below(resolve.types[idv as int].kind, idv as int));
            }
            match &resolve.types[idv].kind {
                TypeDefKind::Alias(t) => {
                    let t2 = *t;
                    return_single(resolve, &t2, orig, flat)
                },
                TypeDefKind::Flags(_) | TypeDefKind::Enum(_) | TypeDefKind::Handle(_) => Ok(
                    Return { scalar: Some(Scalar::Type(*orig)), retptrs: Vec::new() },
                ),
                TypeDefKind::OptionOf(t) => {
                    if flat {
                        let mut retptrs: Vec<Type> = Vec::new();
                        retptrs.push(*t);
                        proof {
                            assert(retptrs@ =~= seq![resolve.types[idv as int].kind->OptionOf_0]);
                        }
                        Ok(Return { scalar: Some(Scalar::OptionBool(*t)), retptrs })
                    } else {
                        let mut retptrs: Vec<Type> = Vec::new();
                        retptrs.push(*orig);
                        proof {
                            assert(retptrs@ =~= seq![*orig]);
                        }
                        Ok(Return { scalar: None, retptrs })
                    }
                },
                TypeDefKind::ResultOf(ok, err) => {
                    if flat {
                        let mut retptrs: Vec<Type> = Vec::new();
                        if let Some(t) = ok {
                            retptrs.push(*t);
                        }
                        if let Some(t) = err {
                            retptrs.push(*t);
                        }
                        let ret = Return { scalar: Some(Scalar::ResultBool(*ok, *err)), retptrs };
                        proof {
                            let sp = spec_return_single(*resolve, *ty, *orig, flat);
                            assert(ret@.retptrs =~= sp->Some_0.retptrs);
                            assert(ret@ =~= sp->Some_0);
                        }
                        Ok(ret)
                    } else {
                        let mut retptrs: Vec<Type> = Vec::new();
                        retptrs.push(*orig);
                        proof {
                            assert(retptrs@ =~= seq![*orig]);
                        }
                        Ok(Return { scalar: None, retptrs })
                    }
                },
                TypeDefKind::Tuple(_) | TypeDefKind::Record(_) | TypeDefKind::ListOf(_)
                    | TypeDefKind::Variant(_) => {
                    let mut retptrs: Vec<Type> = Vec::new();
                    retptrs.push(*orig);
                    proof {
                        assert(retptrs@ =~= seq![*orig]);
                    }
                    Ok(Return { scalar: None, retptrs })
                },
                _ => Err(GenError::Unsupported),
            }
        },
        _ => Ok(Return { scalar: Some(Scalar::Type(*orig)), retptrs: Vec::new() }),
    }
}

/// Classify a function's declared result; see [`spec_classify_ret`].
pub fn classify_ret(resolve: &Resolve, result: &Option<Type>, flat: bool) -> (r: Result<
    Return,
    GenError,
>)
    requires
        resolve.wf(),
        result matches Some(t) ==> resolve.ty_below(*t, resolve.types.len() as int),
    ensures
        r matches Ok(ret) ==> Some(ret@) == spec_classify_ret(*resolve, *result, flat),
        r is Err <==> spec_classify_ret(*resolve, *result, flat) is None,
{
    match result {
        None => Ok(Return { scalar: Some(Scalar::Void), retptrs: Vec::new() }),
        Some(ty) => return_single(resolve, ty, ty, flat),
    }
}

/// Whether an argument of type `ty` is passed by pointer, or `None` where the
/// type involves an unsupported feature.
pub open spec fn spec_arg_by_pointer(resolve: Resolve, ty: Type) -> Option<bool>
    decreases ty.rank(),
    when resolve.wf() && resolve.ty_below(ty, resolve.types.len() as int)
{
    match ty {
        Type::Id(id) => match resolve.types[id as int].kind {
            TypeDefKind::Alias(t) => spec_arg_by_pointer(resolve, t),
            TypeDefKind::Variant(_) => Some(true),
            TypeDefKind::OptionOf(_) => Some(true),
            TypeDefKind::ResultOf(_, _) => Some(true),
            TypeDefKind::Enum(_) => Some(false),
            TypeDefKind::Flags(_) => Some(false),
            TypeDefKind::Handle(_) => Some(false),
            TypeDefKind::Tuple(_) | TypeDefKind::Record(_) | TypeDefKind::ListOf(_) => Some(true),
            _ => None,
        },
        Type::Str => Some(true),
        _ => Some(false),
    }
}

/// Whether an argument of type `ty` is passed by pointer; see
/// [`spec_arg_by_pointer`].
pub fn is_arg_by_pointer(resolve: &Resolve, ty: &Type) -> (r: Result<bool, GenError>)
    requires
        resolve.wf(),
        resolve.ty_below(*ty, resolve.types.len() as int),
    ensures
        r matches Ok(b) ==> Some(b) == spec_arg_by_pointer(*resolve, *ty),
        r is Err <==> spec_arg_by_pointer(*resolve, *ty) is None,
    decreases ty.rank(),
{
    match ty {
        Type::Id(id) => {
            let idv = *id;
            proof {
                assert(resolve.kind_below(resolve.types[idv as int].kind, idv as int));
            }
            match &resolve.types[idv].kind {
                TypeDefKind::Alias(t) => {
                    let t2 = *t;
                    is_arg_by_pointer(resolve, &t2)
                },
                TypeDefKind::Variant(_) => Ok(true),
                TypeDefKind::OptionOf(_) => Ok(true),
                TypeDefKind::ResultOf(_, _) => Ok(true),
                TypeDefKind::Enum(_) => Ok(false),
                TypeDefKind::Flags(_) => Ok(false),
                TypeDefKind::Handle(_) => Ok(false),
                TypeDefKind::Tuple(_) | TypeDefKind::Record(_) | TypeDefKind::ListOf(_) => Ok(
                    true,
                ),
                _ => Err(GenError::Unsupported),
            }
        },
        Type::Str => Ok(true),
        _ => Ok(false),
    }
}

} // verus!
