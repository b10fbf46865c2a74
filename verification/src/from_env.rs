//! The `FromEnv` trait: per-type resolution of an environment entry and a
//! default literal into a typed value.
//!
//! `try_from_env` is the primary, fallible entry point: it succeeds exactly
//! when resolution for the implementing type succeeds, and otherwise returns
//! the error that describes why. `from_env` is the convenience form with the
//! success condition as its precondition.

use vstd::prelude::*;
use crate::kind::{IntWidth, ScalarKind};
use crate::resolve::{ResolutionError, ScalarValue, ValModel, resolve_scalar, scalar_model,
    scalar_ok, scalar_result_matches, scalar_value_model};

verus! {

/// A type a field can resolve to. The three spec functions say, per type,
/// when resolution succeeds, which value it yields, and which error it
/// reports; the two methods realise them.
pub trait FromEnv where Self: Sized {
    /// Does resolution for this type succeed on this environment entry and
    /// default?
    spec fn env_ok(val: Option<Seq<char>>, default: Option<Seq<char>>) -> bool;

    /// Does `r` carry the value these inputs resolve to?
    spec fn env_matches(val: Option<Seq<char>>, default: Option<Seq<char>>, r: Self) -> bool;

    /// Does `e` describe exactly why resolution of these inputs fails, with
    /// `env_var` as the reported key?
    spec fn env_err(
        env_var: Seq<char>,
        val: Option<Seq<char>>,
        default: Option<Seq<char>>,
        e: ResolutionError,
    ) -> bool;

    /// Resolve `val` (the environment entry found under `env_var`, if any)
    /// against `default`, or say why that cannot be done.
    fn try_from_env(env_var: &str, val: Option<String>, default: Option<String>) -> (r: Result<
        Self,
        ResolutionError,
    >)
        ensures
            match r {
                Ok(v) => Self::env_ok(val.deep_view(), default.deep_view()) && Self::env_matches(
                    val.deep_view(),
                    default.deep_view(),
                    v,
                ),
                Err(e) => !Self::env_ok(val.deep_view(), default.deep_view()) && Self::env_err(
                    env_var@,
                    val.deep_view(),
                    default.deep_view(),
                    e,
                ),
            },
    ;

    /// Resolve inputs known to succeed. On inputs that fail, unverified
    /// callers abort, as the resolution error is not returnable here.
    fn from_env(env_var: &str, val: Option<String>, default: Option<String>) -> (r: Self)
        requires
            Self::env_ok(val.deep_view(), default.deep_view()),
        ensures
            Self::env_matches(val.deep_view(), default.deep_view(), r),
    {
        match Self::try_from_env(env_var, val, default) {
            Ok(v) => v,
            Err(_) => unreached(),
        }
    }
}

impl FromEnv for String {
    open spec fn env_ok(val: Option<Seq<char>>, default: Option<Seq<char>>) -> bool {
        scalar_ok(ScalarKind::Text, val, default)
    }

    open spec fn env_matches(val: Option<Seq<char>>, default: Option<Seq<char>>, r: Self) -> bool {
        scalar_value_model(ScalarKind::Text, val, default) == ValModel::Text(r@)
    }

    open spec fn env_err(
        env_var: Seq<char>,
        val: Option<Seq<char>>,
        default: Option<Seq<char>>,
        e: ResolutionError,
    ) -> bool {
        scalar_result_matches(scalar_model(ScalarKind::Text, env_var, val, default), Err(e))
    }

    fn try_from_env(env_var: &str, val: Option<String>, default: Option<String>) -> (r: Result<
        Self,
        ResolutionError,
    >) {
        let ghost vd = val.deep_view();
        let ghost dd = default.deep_view();
        match resolve_scalar(ScalarKind::Text, env_var, val, default) {
            Ok(ScalarValue::Text(s)) => Ok(s),
            Ok(_) => unreached(),
            Err(e) => {
                proof {
                    assert(scalar_result_matches(
                        scalar_model(ScalarKind::Text, env_var@, vd, dd),
                        Err::<ScalarValue, ResolutionError>(e),
                    ));
                    assert(<String as FromEnv>::env_err(env_var@, vd, dd, e));
                }
                Err(e)
            },
        }
    }
}

impl FromEnv for bool {
    open spec fn env_ok(val: Option<Seq<char>>, default: Option<Seq<char>>) -> bool {
        scalar_ok(ScalarKind::Boolean, val, default)
    }

    open spec fn env_matches(val: Option<Seq<char>>, default: Option<Seq<char>>, r: Self) -> bool {
        scalar_value_model(ScalarKind::Boolean, val, default) == ValModel::Truth(r)
    }

    open spec fn env_err(
        env_var: Seq<char>,
        val: Option<Seq<char>>,
        default: Option<Seq<char>>,
        e: ResolutionError,
    ) -> bool {
        scalar_result_matches(scalar_model(ScalarKind::Boolean, env_var, val, default), Err(e))
    }

    fn try_from_env(env_var: &str, val: Option<String>, default: Option<String>) -> (r: Result<
        Self,
        ResolutionError,
    >) {
        let ghost vd = val.deep_view();
        let ghost dd = default.deep_view();
        match resolve_scalar(ScalarKind::Boolean, env_var, val, default) {
            Ok(ScalarValue::Boolean(b)) => Ok(b),
            Ok(_) => unreached(),
            Err(e) => {
                proof {
                    assert(scalar_result_matches(
                        scalar_model(ScalarKind::Boolean, env_var@, vd, dd),
                        Err::<ScalarValue, ResolutionError>(e),
                    ));
                    assert(<bool as FromEnv>::env_err(env_var@, vd, dd, e));
                }
                Err(e)
            },
        }
    }
}

impl FromEnv for i8 {
    open spec fn env_ok(val: Option<Seq<char>>, default: Option<Seq<char>>) -> bool {
        scalar_ok(ScalarKind::Signed(IntWidth::W8), val, default)
    }

    open spec fn env_matches(val: Option<Seq<char>>, default: Option<Seq<char>>, r: Self) -> bool {
        scalar_value_model(ScalarKind::Signed(IntWidth::W8), val, default) == ValModel::SInt(r as int)
    }

    open spec fn env_err(
        env_var: Seq<char>,
        val: Option<Seq<char>>,
        default: Option<Seq<char>>,
        e: ResolutionError,
    ) -> bool {
        scalar_result_matches(scalar_model(ScalarKind::Signed(IntWidth::W8), env_var, val, default), Err(e))
    }

    fn try_from_env(env_var: &str, val: Option<String>, default: Option<String>) -> (r: Result<
        Self,
        ResolutionError,
    >) {
        let ghost vd = val.deep_view();
        let ghost dd = default.deep_view();
        match resolve_scalar(ScalarKind::Signed(IntWidth::W8), env_var, val, default) {
            Ok(ScalarValue::Signed(x)) => {
                proof {
                    assert(crate::kind::min_signed(IntWidth::W8) <= x as int <= crate::kind::max_signed(IntWidth::W8));
                }
                Ok(x as i8)
            },
            Ok(_) => unreached(),
            Err(e) => {
                proof {
                    assert(scalar_result_matches(
                        scalar_model(ScalarKind::Signed(IntWidth::W8), env_var@, vd, dd),
                        Err::<ScalarValue, ResolutionError>(e),
                    ));
                    assert(<i8 as FromEnv>::env_err(env_var@, vd, dd, e));
                }
                Err(e)
            },
        }
    }
}

impl FromEnv for i16 {
    open spec fn env_ok(val: Option<Seq<char>>, default: Option<Seq<char>>) -> bool {
        scalar_ok(ScalarKind::Signed(IntWidth::W16), val, default)
    }

    open spec fn env_matches(val: Option<Seq<char>>, default: Option<Seq<char>>, r: Self) -> bool {
        scalar_value_model(ScalarKind::Signed(IntWidth::W16), val, default) == ValModel::SInt(r as int)
    }

    open spec fn env_err(
        env_var: Seq<char>,
        val: Option<Seq<char>>,
        default: Option<Seq<char>>,
        e: ResolutionError,
    ) -> bool {
        scalar_result_matches(scalar_model(ScalarKind::Signed(IntWidth::W16), env_var, val, default), Err(e))
    }

    fn try_from_env(env_var: &str, val: Option<String>, default: Option<String>) -> (r: Result<
        Self,
        ResolutionError,
    >) {
        let ghost vd = val.deep_view();
        let ghost dd = default.deep_view();
        match resolve_scalar(ScalarKind::Signed(IntWidth::W16), env_var, val, default) {
            Ok(ScalarValue::Signed(x)) => {
                proof {
                    assert(crate::kind::min_signed(IntWidth::W16) <= x as int <= crate::kind::max_signed(IntWidth::W16));
                }
                Ok(x as i16)
            },
            Ok(_) => unreached(),
            Err(e) => {
                proof {
                    assert(scalar_result_matches(
                        scalar_model(ScalarKind::Signed(IntWidth::W16), env_var@, vd, dd),
                        Err::<ScalarValue, ResolutionError>(e),
                    ));
                    assert(<i16 as FromEnv>::env_err(env_var@, vd, dd, e));
                }
                Err(e)
            },
        }
    }
}

impl FromEnv for i32 {
    open spec fn env_ok(val: Option<Seq<char>>, default: Option<Seq<char>>) -> bool {
        scalar_ok(ScalarKind::Signed(IntWidth::W32), val, default)
    }

    open spec fn env_matches(val: Option<Seq<char>>, default: Option<Seq<char>>, r: Self) -> bool {
        scalar_value_model(ScalarKind::Signed(IntWidth::W32), val, default) == ValModel::SInt(r as int)
    }

    open spec fn env_err(
        env_var: Seq<char>,
        val: Option<Seq<char>>,
        default: Option<Seq<char>>,
        e: ResolutionError,
    ) -> bool {
        scalar_result_matches(scalar_model(ScalarKind::Signed(IntWidth::W32), env_var, val, default), Err(e))
    }

    fn try_from_env(env_var: &str, val: Option<String>, default: Option<String>) -> (r: Result<
        Self,
        ResolutionError,
    >) {
        let ghost vd = val.deep_view();
        let ghost dd = default.deep_view();
        match resolve_scalar(ScalarKind::Signed(IntWidth::W32), env_var, val, default) {
            Ok(ScalarValue::Signed(x)) => {
                proof {
                    assert(crate::kind::min_signed(IntWidth::W32) <= x as int <= crate::kind::max_signed(IntWidth::W32));
                }
                Ok(x as i32)
            },
            Ok(_) => unreached(),
            Err(e) => {
                proof {
                    assert(scalar_result_matches(
                        scalar_model(ScalarKind::Signed(IntWidth::W32), env_var@, vd, dd),
                        Err::<ScalarValue, ResolutionError>(e),
                    ));
                    assert(<i32 as FromEnv>::env_err(env_var@, vd, dd, e));
                }
                Err(e)
            },
        }
    }
}

impl FromEnv for i64 {
    open spec fn env_ok(val: Option<Seq<char>>, default: Option<Seq<char>>) -> bool {
        scalar_ok(ScalarKind::Signed(IntWidth::W64), val, default)
    }

    open spec fn env_matches(val: Option<Seq<char>>, default: Option<Seq<char>>, r: Self) -> bool {
        scalar_value_model(ScalarKind::Signed(IntWidth::W64), val, default) == ValModel::SInt(r as int)
    }

    open spec fn env_err(
        env_var: Seq<char>,
        val: Option<Seq<char>>,
        default: Option<Seq<char>>,
        e: ResolutionError,
    ) -> bool {
        scalar_result_matches(scalar_model(ScalarKind::Signed(IntWidth::W64), env_var, val, default), Err(e))
    }

    fn try_from_env(env_var: &str, val: Option<String>, default: Option<String>) -> (r: Result<
        Self,
        ResolutionError,
    >) {
        let ghost vd = val.deep_view();
        let ghost dd = default.deep_view();
        match resolve_scalar(ScalarKind::Signed(IntWidth::W64), env_var, val, default) {
            Ok(ScalarValue::Signed(x)) => {
                proof {
                    assert(crate::kind::min_signed(IntWidth::W64) <= x as int <= crate::kind::max_signed(IntWidth::W64));
                }
                Ok(x as i64)
            },
            Ok(_) => unreached(),
            Err(e) => {
                proof {
                    assert(scalar_result_matches(
                        scalar_model(ScalarKind::Signed(IntWidth::W64), env_var@, vd, dd),
                        Err::<ScalarValue, ResolutionError>(e),
                    ));
                    assert(<i64 as FromEnv>::env_err(env_var@, vd, dd, e));
                }
                Err(e)
            },
        }
    }
}

impl FromEnv for i128 {
    open spec fn env_ok(val: Option<Seq<char>>, default: Option<Seq<char>>) -> bool {
        scalar_ok(ScalarKind::Signed(IntWidth::W128), val, default)
    }

    open spec fn env_matches(val: Option<Seq<char>>, default: Option<Seq<char>>, r: Self) -> bool {
        scalar_value_model(ScalarKind::Signed(IntWidth::W128), val, default) == ValModel::SInt(r as int)
    }

    open spec fn env_err(
        env_var: Seq<char>,
        val: Option<Seq<char>>,
        default: Option<Seq<char>>,
        e: ResolutionError,
    ) -> bool {
        scalar_result_matches(scalar_model(ScalarKind::Signed(IntWidth::W128), env_var, val, default), Err(e))
    }

    fn try_from_env(env_var: &str, val: Option<String>, default: Option<String>) -> (r: Result<
        Self,
        ResolutionError,
    >) {
        let ghost vd = val.deep_view();
        let ghost dd = default.deep_view();
        match resolve_scalar(ScalarKind::Signed(IntWidth::W128), env_var, val, default) {
            Ok(ScalarValue::Signed(x)) => Ok(x),
            Ok(_) => unreached(),
            Err(e) => {
                proof {
                    assert(scalar_result_matches(
                        scalar_model(ScalarKind::Signed(IntWidth::W128), env_var@, vd, dd),
                        Err::<ScalarValue, ResolutionError>(e),
                    ));
                    assert(<i128 as FromEnv>::env_err(env_var@, vd, dd, e));
                }
                Err(e)
            },
        }
    }
}

impl FromEnv for isize {
    open spec fn env_ok(val: Option<Seq<char>>, default: Option<Seq<char>>) -> bool {
        scalar_ok(ScalarKind::Signed(IntWidth::WSize), val, default)
    }

    open spec fn env_matches(val: Option<Seq<char>>, default: Option<Seq<char>>, r: Self) -> bool {
        scalar_value_model(ScalarKind::Signed(IntWidth::WSize), val, default) == ValModel::SInt(r as int)
    }

    open spec fn env_err(
        env_var: Seq<char>,
        val: Option<Seq<char>>,
        default: Option<Seq<char>>,
        e: ResolutionError,
    ) -> bool {
        scalar_result_matches(scalar_model(ScalarKind::Signed(IntWidth::WSize), env_var, val, default), Err(e))
    }

    fn try_from_env(env_var: &str, val: Option<String>, default: Option<String>) -> (r: Result<
        Self,
        ResolutionError,
    >) {
        let ghost vd = val.deep_view();
        let ghost dd = default.deep_view();
        match resolve_scalar(ScalarKind::Signed(IntWidth::WSize), env_var, val, default) {
            Ok(ScalarValue::Signed(x)) => {
                proof {
                    assert(crate::kind::min_signed(IntWidth::WSize) <= x as int <= crate::kind::max_signed(IntWidth::WSize));
                }
                Ok(x as isize)
            },
            Ok(_) => unreached(),
            Err(e) => {
                proof {
                    assert(scalar_result_matches(
                        scalar_model(ScalarKind::Signed(IntWidth::WSize), env_var@, vd, dd),
                        Err::<ScalarValue, ResolutionError>(e),
                    ));
                    assert(<isize as FromEnv>::env_err(env_var@, vd, dd, e));
                }
                Err(e)
            },
        }
    }
}

impl FromEnv for u8 {
    open spec fn env_ok(val: Option<Seq<char>>, default: Option<Seq<char>>) -> bool {
        scalar_ok(ScalarKind::Unsigned(IntWidth::W8), val, default)
    }

    open spec fn env_matches(val: Option<Seq<char>>, default: Option<Seq<char>>, r: Self) -> bool {
        scalar_value_model(ScalarKind::Unsigned(IntWidth::W8), val, default) == ValModel::UInt(r as int)
    }

    open spec fn env_err(
        env_var: Seq<char>,
        val: Option<Seq<char>>,
        default: Option<Seq<char>>,
        e: ResolutionError,
    ) -> bool {
        scalar_result_matches(scalar_model(ScalarKind::Unsigned(IntWidth::W8), env_var, val, default), Err(e))
    }

    fn try_from_env(env_var: &str, val: Option<String>, default: Option<String>) -> (r: Result<
        Self,
        ResolutionError,
    >) {
        let ghost vd = val.deep_view();
        let ghost dd = default.deep_view();
        match resolve_scalar(ScalarKind::Unsigned(IntWidth::W8), env_var, val, default) {
            Ok(ScalarValue::Unsigned(x)) => {
                proof {
                    assert(x as int <= crate::kind::max_unsigned(IntWidth::W8));
                }
                Ok(x as u8)
            },
            Ok(_) => unreached(),
            Err(e) => {
                proof {
                    assert(scalar_result_matches(
                        scalar_model(ScalarKind::Unsigned(IntWidth::W8), env_var@, vd, dd),
                        Err::<ScalarValue, ResolutionError>(e),
                    ));
                    assert(<u8 as FromEnv>::env_err(env_var@, vd, dd, e));
                }
                Err(e)
            },
        }
    }
}

impl FromEnv for u16 {
    open spec fn env_ok(val: Option<Seq<char>>, default: Option<Seq<char>>) -> bool {
        scalar_ok(ScalarKind::Unsigned(IntWidth::W16), val, default)
    }

    open spec fn env_matches(val: Option<Seq<char>>, default: Option<Seq<char>>, r: Self) -> bool {
        scalar_value_model(ScalarKind::Unsigned(IntWidth::W16), val, default) == ValModel::UInt(r as int)
    }

    open spec fn env_err(
        env_var: Seq<char>,
        val: Option<Seq<char>>,
        default: Option<Seq<char>>,
        e: ResolutionError,
    ) -> bool {
        scalar_result_matches(scalar_model(ScalarKind::Unsigned(IntWidth::W16), env_var, val, default), Err(e))
    }

    fn try_from_env(env_var: &str, val: Option<String>, default: Option<String>) -> (r: Result<
        Self,
        ResolutionError,
    >) {
        let ghost vd = val.deep_view();
        let ghost dd = default.deep_view();
        match resolve_scalar(ScalarKind::Unsigned(IntWidth::W16), env_var, val, default) {
            Ok(ScalarValue::Unsigned(x)) => {
                proof {
                    assert(x as int <= crate::kind::max_unsigned(IntWidth::W16));
                }
                Ok(x as u16)
            },
            Ok(_) => unreached(),
            Err(e) => {
                proof {
                    assert(scalar_result_matches(
                        scalar_model(ScalarKind::Unsigned(IntWidth::W16), env_var@, vd, dd),
                        Err::<ScalarValue, ResolutionError>(e),
                    ));
                    assert(<u16 as FromEnv>::env_err(env_var@, vd, dd, e));
                }
                Err(e)
            },
        }
    }
}

impl FromEnv for u32 {
    open spec fn env_ok(val: Option<Seq<char>>, default: Option<Seq<char>>) -> bool {
        scalar_ok(ScalarKind::Unsigned(IntWidth::W32), val, default)
    }

    open spec fn env_matches(val: Option<Seq<char>>, default: Option<Seq<char>>, r: Self) -> bool {
        scalar_value_model(ScalarKind::Unsigned(IntWidth::W32), val, default) == ValModel::UInt(r as int)
    }

    open spec fn env_err(
        env_var: Seq<char>,
        val: Option<Seq<char>>,
        default: Option<Seq<char>>,
        e: ResolutionError,
    ) -> bool {
        scalar_result_matches(scalar_model(ScalarKind::Unsigned(IntWidth::W32), env_var, val, default), Err(e))
    }

    fn try_from_env(env_var: &str, val: Option<String>, default: Option<String>) -> (r: Result<
        Self,
        ResolutionError,
    >) {
        let ghost vd = val.deep_view();
        let ghost dd = default.deep_view();
        match resolve_scalar(ScalarKind::Unsigned(IntWidth::W32), env_var, val, default) {
            Ok(ScalarValue::Unsigned(x)) => {
                proof {
                    assert(x as int <= crate::kind::max_unsigned(IntWidth::W32));
                }
                Ok(x as u32)
            },
            Ok(_) => unreached(),
            Err(e) => {
                proof {
                    assert(scalar_result_matches(
                        scalar_model(ScalarKind::Unsigned(IntWidth::W32), env_var@, vd, dd),
                        Err::<ScalarValue, ResolutionError>(e),
                    ));
                    assert(<u32 as FromEnv>::env_err(env_var@, vd, dd, e));
                }
                Err(e)
            },
        }
    }
}

impl FromEnv for u64 {
    open spec fn env_ok(val: Option<Seq<char>>, default: Option<Seq<char>>) -> bool {
        scalar_ok(ScalarKind::Unsigned(IntWidth::W64), val, default)
    }

    open spec fn env_matches(val: Option<Seq<char>>, default: Option<Seq<char>>, r: Self) -> bool {
        scalar_value_model(ScalarKind::Unsigned(IntWidth::W64), val, default) == ValModel::UInt(r as int)
    }

    open spec fn env_err(
        env_var: Seq<char>,
        val: Option<Seq<char>>,
        default: Option<Seq<char>>,
        e: ResolutionError,
    ) -> bool {
        scalar_result_matches(scalar_model(ScalarKind::Unsigned(IntWidth::W64), env_var, val, default), Err(e))
    }

    fn try_from_env(env_var: &str, val: Option<String>, default: Option<String>) -> (r: Result<
        Self,
        ResolutionError,
    >) {
        let ghost vd = val.deep_view();
        let ghost dd = default.deep_view();
        match resolve_scalar(ScalarKind::Unsigned(IntWidth::W64), env_var, val, default) {
            Ok(ScalarValue::Unsigned(x)) => {
                proof {
                    assert(x as int <= crate::kind::max_unsigned(IntWidth::W64));
                }
                Ok(x as u64)
            },
            Ok(_) => unreached(),
            Err(e) => {
                proof {
                    assert(scalar_result_matches(
                        scalar_model(ScalarKind::Unsigned(IntWidth::W64), env_var@, vd, dd),
                        Err::<ScalarValue, ResolutionError>(e),
                    ));
                    assert(<u64 as FromEnv>::env_err(env_var@, vd, dd, e));
                }
                Err(e)
            },
        }
    }
}

impl FromEnv for u128 {
    open spec fn env_ok(val: Option<Seq<char>>, default: Option<Seq<char>>) -> bool {
        scalar_ok(ScalarKind::Unsigned(IntWidth::W128), val, default)
    }

    open spec fn env_matches(val: Option<Seq<char>>, default: Option<Seq<char>>, r: Self) -> bool {
        scalar_value_model(ScalarKind::Unsigned(IntWidth::W128), val, default) == ValModel::UInt(r as int)
    }

    open spec fn env_err(
        env_var: Seq<char>,
        val: Option<Seq<char>>,
        default: Option<Seq<char>>,
        e: ResolutionError,
    ) -> bool {
        scalar_result_matches(scalar_model(ScalarKind::Unsigned(IntWidth::W128), env_var, val, default), Err(e))
    }

    fn try_from_env(env_var: &str, val: Option<String>, default: Option<String>) -> (r: Result<
        Self,
        ResolutionError,
    >) {
        let ghost vd = val.deep_view();
        let ghost dd = default.deep_view();
        match resolve_scalar(ScalarKind::Unsigned(IntWidth::W128), env_var, val, default) {
            Ok(ScalarValue::Unsigned(x)) => Ok(x),
            Ok(_) => unreached(),
            Err(e) => {
                proof {
                    assert(scalar_result_matches(
                        scalar_model(ScalarKind::Unsigned(IntWidth::W128), env_var@, vd, dd),
                        Err::<ScalarValue, ResolutionError>(e),
                    ));
                    assert(<u128 as FromEnv>::env_err(env_var@, vd, dd, e));
                }
                Err(e)
            },
        }
    }
}

impl FromEnv for usize {
    open spec fn env_ok(val: Option<Seq<char>>, default: Option<Seq<char>>) -> bool {
        scalar_ok(ScalarKind::Unsigned(IntWidth::WSize), val, default)
    }

    open spec fn env_matches(val: Option<Seq<char>>, default: Option<Seq<char>>, r: Self) -> bool {
        scalar_value_model(ScalarKind::Unsigned(IntWidth::WSize), val, default) == ValModel::UInt(r as int)
    }

    open spec fn env_err(
        env_var: Seq<char>,
        val: Option<Seq<char>>,
        default: Option<Seq<char>>,
        e: ResolutionError,
    ) -> bool {
        scalar_result_matches(scalar_model(ScalarKind::Unsigned(IntWidth::WSize), env_var, val, default), Err(e))
    }

    fn try_from_env(env_var: &str, val: Option<String>, default: Option<String>) -> (r: Result<
        Self,
        ResolutionError,
    >) {
        let ghost vd = val.deep_view();
        let ghost dd = default.deep_view();
        match resolve_scalar(ScalarKind::Unsigned(IntWidth::WSize), env_var, val, default) {
            Ok(ScalarValue::Unsigned(x)) => {
                proof {
                    assert(x as int <= crate::kind::max_unsigned(IntWidth::WSize));
                }
                Ok(x as usize)
            },
            Ok(_) => unreached(),
            Err(e) => {
                proof {
                    assert(scalar_result_matches(
                        scalar_model(ScalarKind::Unsigned(IntWidth::WSize), env_var@, vd, dd),
                        Err::<ScalarValue, ResolutionError>(e),
                    ));
                    assert(<usize as FromEnv>::env_err(env_var@, vd, dd, e));
                }
                Err(e)
            },
        }
    }
}

impl<T: FromEnv> FromEnv for Option<T> {
    /// An optional value resolves even when nothing was supplied at all;
    /// otherwise it resolves exactly when the inner type does.
    open spec fn env_ok(val: Option<Seq<char>>, default: Option<Seq<char>>) -> bool {
        (val is None && default is None) || T::env_ok(val, default)
    }

    open spec fn env_matches(val: Option<Seq<char>>, default: Option<Seq<char>>, r: Self) -> bool {
        if val is None && default is None {
            r is None
        } else {
            match r {
                Some(x) => T::env_matches(val, default, x),
                None => false,
            }
        }
    }

    open spec fn env_err(
        env_var: Seq<char>,
        val: Option<Seq<char>>,
        default: Option<Seq<char>>,
        e: ResolutionError,
    ) -> bool {
        T::env_err(env_var, val, default, e)
    }

    fn try_from_env(env_var: &str, val: Option<String>, default: Option<String>) -> (r: Result<
        Self,
        ResolutionError,
    >) {
        let ghost vd = val.deep_view();
        let ghost dd = default.deep_view();
        if val.is_none() && default.is_none() {
            return Ok(None);
        }
        match T::try_from_env(env_var, val, default) {
            Ok(v) => Ok(Some(v)),
            Err(e) => {
                proof {
                    assert(<Option<T> as FromEnv>::env_err(env_var@, vd, dd, e));
                }
                Err(e)
            },
        }
    }
}

} // verus!
