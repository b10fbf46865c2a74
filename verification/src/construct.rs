//! Whole-struct construction: resolve a list of field declarations against
//! an environment snapshot, all or nothing. The first field that fails
//! aborts the whole construction with its error; no partial result is ever
//! returned.

use vstd::prelude::*;
use crate::extract::{declared_model, extract, key_model};
use crate::resolve::{Outcome, ResolutionError, ResolvedValue, field_model, field_result_matches,
    resolve_field};
use crate::extract::FieldDecl;
use crate::text::str_eq;

verus! {

/// Exact-key lookup in an environment snapshot: the value of the first pair
/// whose key matches, if any.
pub open spec fn lookup_model(env: Seq<(Seq<char>, Seq<char>)>, key: Seq<char>) -> Option<
    Seq<char>,
>
    decreases env.len(),
{
    if env.len() == 0 {
        None
    } else if env[0].0 == key {
        Some(env[0].1)
    } else {
        lookup_model(env.drop_first(), key)
    }
}

/// Look `key` up in the snapshot `env`, by exact string match.
pub fn lookup_env(env: &Vec<(String, String)>, key: &str) -> (r: Option<String>)
    ensures
        r.deep_view() == lookup_model(env.deep_view(), key@),
{
    let ghost ev = env.deep_view();
    proof {
        assert(ev == Seq::new(env@.len(), |k: int| env@[k].deep_view()));
        assert(ev.skip(0) =~= ev);
    }
    let mut i: usize = 0;
    while i < env.len()
        invariant
            i <= env.len(),
            ev == env.deep_view(),
            ev.len() == env.len(),
            lookup_model(ev, key@) == lookup_model(ev.skip(i as int), key@),
        decreases env.len() - i,
    {
        let pair = &env[i];
        proof {
            assert(ev.skip(i as int)[0] == ev[i as int]);
        }
        if str_eq(pair.0.as_str(), key) {
            return Some(pair.1.clone());
        }
        proof {
            assert(ev.skip(i as int).drop_first() =~= ev.skip(i as int + 1));
        }
        i = i + 1;
    }
    None
}

/// What one declaration resolves to under an environment snapshot: `None`
/// when its declared type is unsupported, else the field's modelled outcome.
pub open spec fn decl_outcome(d: FieldDecl, env: Seq<(Seq<char>, Seq<char>)>) -> Option<Outcome> {
    match declared_model(d.declared_type@) {
        None => None,
        Some(ko) => {
            let key = key_model(d.name@, d.key_override.deep_view());
            Some(field_model(ko.0, ko.1, key, lookup_model(env, key), d.default.deep_view()))
        },
    }
}

/// Does resolving `d` under `env` succeed?
pub open spec fn decl_ok(d: FieldDecl, env: Seq<(Seq<char>, Seq<char>)>) -> bool {
    match decl_outcome(d, env) {
        Some(o) => o is Absent || o is Val,
        None => false,
    }
}

/// Does `r` carry exactly what resolving `d` under `env` yields?
pub open spec fn decl_result_matches(
    d: FieldDecl,
    env: Seq<(Seq<char>, Seq<char>)>,
    r: Result<ResolvedValue, ResolutionError>,
) -> bool {
    match decl_outcome(d, env) {
        None => r matches Err(ResolutionError::UnsupportedFieldType { declared_type: t }) && t@
            == d.declared_type@,
        Some(o) => field_result_matches(o, r),
    }
}

/// Resolve every declaration against the snapshot, in declaration order,
/// all or nothing: on success one value per field, each exactly what its
/// declaration resolves to; on failure the error of the first field that
/// fails, every field before it having succeeded.
pub fn resolve_struct(decls: &Vec<FieldDecl>, env: &Vec<(String, String)>) -> (r: Result<
    Vec<ResolvedValue>,
    ResolutionError,
>)
    ensures
        match r {
            Ok(vs) => vs.len() == decls.len() && forall|i: int|
                0 <= i < decls.len() ==> decl_ok(#[trigger] decls@[i], env.deep_view())
                    && decl_result_matches(decls@[i], env.deep_view(), Ok(vs@[i])),
            Err(e) => exists|i: int|
                0 <= i < decls.len() && !decl_ok(#[trigger] decls@[i], env.deep_view())
                    && decl_result_matches(decls@[i], env.deep_view(), Err(e)) && (forall|j: int|
                    0 <= j < i ==> decl_ok(#[trigger] decls@[j], env.deep_view())),
        },
{
    let ghost ev = env.deep_view();
    let mut out: Vec<ResolvedValue> = Vec::new();
    let mut i: usize = 0;
    while i < decls.len()
        invariant
            i <= decls.len(),
            out.len() == i,
            ev == env.deep_view(),
            forall|j: int|
                0 <= j < i ==> decl_ok(#[trigger] decls@[j], ev) && decl_result_matches(
                    decls@[j],
                    ev,
                    Ok(out@[j]),
                ),
        decreases decls.len() - i,
    {
        let d = &decls[i];
        match extract(d) {
            Err(e) => {
                proof {
                    assert(!decl_ok(decls@[i as int], ev) && decl_result_matches(
                        decls@[i as int],
                        ev,
                        Err(e),
                    ));
                }
                return Err(e);
            },
            Ok(desc) => {
                let val = lookup_env(env, desc.lookup_key.as_str());
                match resolve_field(&desc, val) {
                    Ok(v) => {
                        out.push(v);
                    },
                    Err(e) => {
                        proof {
                            assert(!decl_ok(decls@[i as int], ev) && decl_result_matches(
                                decls@[i as int],
                                ev,
                                Err(e),
                            ));
                        }
                        return Err(e);
                    },
                }
            },
        }
        i = i + 1;
    }
    Ok(out)
}

} // verus!
