//! The build-time capability probe: which C integer widths have a native
//! atomic on the target, and which implementation each width's atomic gets.
//!
//! The probe itself compiles a small program per width and is run by the
//! build; what is decided from its answers is here.
use vstd::prelude::*;

verus! {

/// A C integer type whose atomic is probed for by name: the same bit count
/// can stand for different C types on different ABIs.
#[derive(Clone, Copy, Debug, PartialEq, Eq, Structural)]
pub enum CInt {
    Char,
    Schar,
    Uchar,
    Short,
    Ushort,
    Int,
    Uint,
    Long,
    Ulong,
    Longlong,
    Ulonglong,
}

/// The name of the C type.
pub open spec fn c_name(w: CInt) -> Seq<char> {
    match w {
        CInt::Char => "c_char"@,
        CInt::Schar => "c_schar"@,
        CInt::Uchar => "c_uchar"@,
        CInt::Short => "c_short"@,
        CInt::Ushort => "c_ushort"@,
        CInt::Int => "c_int"@,
        CInt::Uint => "c_uint"@,
        CInt::Long => "c_long"@,
        CInt::Ulong => "c_ulong"@,
        CInt::Longlong => "c_longlong"@,
        CInt::Ulonglong => "c_ulonglong"@,
    }
}

/// The condition set while compiling the probe program for `w`.
pub open spec fn probe_cfg_spec(w: CInt) -> Seq<char> {
    "test_has_"@ + c_name(w) + "_atomic"@
}

/// The condition that the build sets when `w` has a native atomic.
pub open spec fn capability_cfg_spec(w: CInt) -> Seq<char> {
    "has_"@ + c_name(w) + "_atomic"@
}

/// Every probed width, in the order in which they are probed.
pub open spec fn all_c_ints_spec() -> Seq<CInt> {
    seq![CInt::Char, CInt::Schar, CInt::Uchar, CInt::Short, CInt::Ushort, CInt::Int, CInt::Uint, CInt::Long, CInt::Ulong, CInt::Longlong, CInt::Ulonglong]
}

/// The condition names, spelled out, are the ones their rule gives.
proof fn lemma_cfg_literals()
    ensures
        "test_has_c_char_atomic"@ == "test_has_"@ + "c_char"@ + "_atomic"@,
        "test_has_c_schar_atomic"@ == "test_has_"@ + "c_schar"@ + "_atomic"@,
        "test_has_c_uchar_atomic"@ == "test_has_"@ + "c_uchar"@ + "_atomic"@,
        "test_has_c_short_atomic"@ == "test_has_"@ + "c_short"@ + "_atomic"@,
        "test_has_c_ushort_atomic"@ == "test_has_"@ + "c_ushort"@ + "_atomic"@,
        "test_has_c_int_atomic"@ == "test_has_"@ + "c_int"@ + "_atomic"@,
        "test_has_c_uint_atomic"@ == "test_has_"@ + "c_uint"@ + "_atomic"@,
        "test_has_c_long_atomic"@ == "test_has_"@ + "c_long"@ + "_atomic"@,
        "test_has_c_ulong_atomic"@ == "test_has_"@ + "c_ulong"@ + "_atomic"@,
        "test_has_c_longlong_atomic"@ == "test_has_"@ + "c_longlong"@ + "_atomic"@,
        "test_has_c_ulonglong_atomic"@ == "test_has_"@ + "c_ulonglong"@ + "_atomic"@,
        "has_c_char_atomic"@ == "has_"@ + "c_char"@ + "_atomic"@,
        "has_c_schar_atomic"@ == "has_"@ + "c_schar"@ + "_atomic"@,
        "has_c_uchar_atomic"@ == "has_"@ + "c_uchar"@ + "_atomic"@,
        "has_c_short_atomic"@ == "has_"@ + "c_short"@ + "_atomic"@,
        "has_c_ushort_atomic"@ == "has_"@ + "c_ushort"@ + "_atomic"@,
        "has_c_int_atomic"@ == "has_"@ + "c_int"@ + "_atomic"@,
        "has_c_uint_atomic"@ == "has_"@ + "c_uint"@ + "_atomic"@,
        "has_c_long_atomic"@ == "has_"@ + "c_long"@ + "_atomic"@,
        "has_c_ulong_atomic"@ == "has_"@ + "c_ulong"@ + "_atomic"@,
        "has_c_longlong_atomic"@ == "has_"@ + "c_longlong"@ + "_atomic"@,
        "has_c_ulonglong_atomic"@ == "has_"@ + "c_ulonglong"@ + "_atomic"@,
{
    reveal_strlit("test_has_");
    reveal_strlit("has_");
    reveal_strlit("_atomic");
    reveal_strlit("c_char");
    reveal_strlit("c_schar");
    reveal_strlit("c_uchar");
    reveal_strlit("c_short");
    reveal_strlit("c_ushort");
    reveal_strlit("c_int");
    reveal_strlit("c_uint");
    reveal_strlit("c_long");
    reveal_strlit("c_ulong");
    reveal_strlit("c_longlong");
    reveal_strlit("c_ulonglong");
    reveal_strlit("test_has_c_char_atomic");
    assert("test_has_c_char_atomic"@ =~= "test_has_"@ + "c_char"@ + "_atomic"@);
    reveal_strlit("test_has_c_schar_atomic");
    assert("test_has_c_schar_atomic"@ =~= "test_has_"@ + "c_schar"@ + "_atomic"@);
    reveal_strlit("test_has_c_uchar_atomic");
    assert("test_has_c_uchar_atomic"@ =~= "test_has_"@ + "c_uchar"@ + "_atomic"@);
    reveal_strlit("test_has_c_short_atomic");
    assert("test_has_c_short_atomic"@ =~= "test_has_"@ + "c_short"@ + "_atomic"@);
    reveal_strlit("test_has_c_ushort_atomic");
    assert("test_has_c_ushort_atomic"@ =~= "test_has_"@ + "c_ushort"@ + "_atomic"@);
    reveal_strlit("test_has_c_int_atomic");
    assert("test_has_c_int_atomic"@ =~= "test_has_"@ + "c_int"@ + "_atomic"@);
    reveal_strlit("test_has_c_uint_atomic");
    assert("test_has_c_uint_atomic"@ =~= "test_has_"@ + "c_uint"@ + "_atomic"@);
    reveal_strlit("test_has_c_long_atomic");
    assert("test_has_c_long_atomic"@ =~= "test_has_"@ + "c_long"@ + "_atomic"@);
    reveal_strlit("test_has_c_ulong_atomic");
    assert("test_has_c_ulong_atomic"@ =~= "test_has_"@ + "c_ulong"@ + "_atomic"@);
    reveal_strlit("test_has_c_longlong_atomic");
    assert("test_has_c_longlong_atomic"@ =~= "test_has_"@ + "c_longlong"@ + "_atomic"@);
    reveal_strlit("test_has_c_ulonglong_atomic");
    assert("test_has_c_ulonglong_atomic"@ =~= "test_has_"@ + "c_ulonglong"@ + "_atomic"@);
    reveal_strlit("has_c_char_atomic");
    assert("has_c_char_atomic"@ =~= "has_"@ + "c_char"@ + "_atomic"@);
    reveal_strlit("has_c_schar_atomic");
    assert("has_c_schar_atomic"@ =~= "has_"@ + "c_schar"@ + "_atomic"@);
    reveal_strlit("has_c_uchar_atomic");
    assert("has_c_uchar_atomic"@ =~= "has_"@ + "c_uchar"@ + "_atomic"@);
    reveal_strlit("has_c_short_atomic");
    assert("has_c_short_atomic"@ =~= "has_"@ + "c_short"@ + "_atomic"@);
    reveal_strlit("has_c_ushort_atomic");
    assert("has_c_ushort_atomic"@ =~= "has_"@ + "c_ushort"@ + "_atomic"@);
    reveal_strlit("has_c_int_atomic");
    assert("has_c_int_atomic"@ =~= "has_"@ + "c_int"@ + "_atomic"@);
    reveal_strlit("has_c_uint_atomic");
    assert("has_c_uint_atomic"@ =~= "has_"@ + "c_uint"@ + "_atomic"@);
    reveal_strlit("has_c_long_atomic");
    assert("has_c_long_atomic"@ =~= "has_"@ + "c_long"@ + "_atomic"@);
    reveal_strlit("has_c_ulong_atomic");
    assert("has_c_ulong_atomic"@ =~= "has_"@ + "c_ulong"@ + "_atomic"@);
    reveal_strlit("has_c_longlong_atomic");
    assert("has_c_longlong_atomic"@ =~= "has_"@ + "c_longlong"@ + "_atomic"@);
    reveal_strlit("has_c_ulonglong_atomic");
    assert("has_c_ulonglong_atomic"@ =~= "has_"@ + "c_ulonglong"@ + "_atomic"@);
}

impl CInt {
    /// The name of the C type, such as `c_int`.
    pub fn name(self) -> (r: &'static str)
        ensures
            r@ == c_name(self),
    {
        match self {
            CInt::Char => "c_char",
            CInt::Schar => "c_schar",
            CInt::Uchar => "c_uchar",
            CInt::Short => "c_short",
            CInt::Ushort => "c_ushort",
            CInt::Int => "c_int",
            CInt::Uint => "c_uint",
            CInt::Long => "c_long",
            CInt::Ulong => "c_ulong",
            CInt::Longlong => "c_longlong",
            CInt::Ulonglong => "c_ulonglong",
        }
    }

    /// The condition under which the probe program for this width compiles
    /// only if the target has its atomic.
    pub fn probe_cfg(self) -> (r: &'static str)
        ensures
            r@ == probe_cfg_spec(self),
    {
        proof {
            lemma_cfg_literals();
        }
        match self {
            CInt::Char => "test_has_c_char_atomic",
            CInt::Schar => "test_has_c_schar_atomic",
            CInt::Uchar => "test_has_c_uchar_atomic",
            CInt::Short => "test_has_c_short_atomic",
            CInt::Ushort => "test_has_c_ushort_atomic",
            CInt::Int => "test_has_c_int_atomic",
            CInt::Uint => "test_has_c_uint_atomic",
            CInt::Long => "test_has_c_long_atomic",
            CInt::Ulong => "test_has_c_ulong_atomic",
            CInt::Longlong => "test_has_c_longlong_atomic",
            CInt::Ulonglong => "test_has_c_ulonglong_atomic",
        }
    }

    /// The condition that marks this width as having a native atomic.
    pub fn capability_cfg(self) -> (r: &'static str)
        ensures
            r@ == capability_cfg_spec(self),
    {
        proof {
            lemma_cfg_literals();
        }
        match self {
            CInt::Char => "has_c_char_atomic",
            CInt::Schar => "has_c_schar_atomic",
            CInt::Uchar => "has_c_uchar_atomic",
            CInt::Short => "has_c_short_atomic",
            CInt::Ushort => "has_c_ushort_atomic",
            CInt::Int => "has_c_int_atomic",
            CInt::Uint => "has_c_uint_atomic",
            CInt::Long => "has_c_long_atomic",
            CInt::Ulong => "has_c_ulong_atomic",
            CInt::Longlong => "has_c_longlong_atomic",
            CInt::Ulonglong => "has_c_ulonglong_atomic",
        }
    }
}

/// Every probed width, in the order in which they are probed.
pub fn all_c_ints() -> (r: Vec<CInt>)
    ensures
        r@ == all_c_ints_spec(),
{
    vec![CInt::Char, CInt::Schar, CInt::Uchar, CInt::Short, CInt::Ushort, CInt::Int, CInt::Uint, CInt::Long, CInt::Ulong, CInt::Longlong, CInt::Ulonglong]
}

/// The widths of `order` that are in `enabled`, in the order of `order`.
pub open spec fn enabled_spec(order: Seq<CInt>, enabled: Seq<CInt>) -> Seq<CInt>
    decreases order.len(),
{
    if order.len() == 0 {
        seq![]
    } else {
        let rest = enabled_spec(order.drop_last(), enabled);
        if enabled.contains(order.last()) {
            rest.push(order.last())
        } else {
            rest
        }
    }
}

/// The widths to probe, in probe order: those that are switched on. A width
/// that is switched off is never probed and never gets a condition.
pub fn widths_to_probe(enabled: &Vec<CInt>) -> (r: Vec<CInt>)
    ensures
        r@ == enabled_spec(all_c_ints_spec(), enabled@),
{
    let all = all_c_ints();
    let mut r: Vec<CInt> = Vec::new();
    let mut i: usize = 0;
    while i < all.len()
        invariant
            all@ == all_c_ints_spec(),
            i <= all@.len(),
            r@ == enabled_spec(all@.take(i as int), enabled@),
        decreases all@.len() - i,
    {
        assert(all@.take(i as int + 1).drop_last() == all@.take(i as int));
        let w = all[i];
        let mut on = false;
        let mut j: usize = 0;
        while j < enabled.len()
            invariant
                j <= enabled@.len(),
                on == enabled@.take(j as int).contains(w),
            decreases enabled@.len() - j,
        {
            proof {
                assert(enabled@.take(j as int + 1) == enabled@.take(j as int).push(
                    enabled@[j as int],
                ));
                vstd::seq_lib::lemma_seq_contains_after_push(
                    enabled@.take(j as int),
                    enabled@[j as int],
                    w,
                );
            }
            if enabled[j] == w {
                on = true;
            }
            j = j + 1;
        }
        assert(enabled@.take(enabled@.len() as int) == enabled@);
        if on {
            r.push(w);
        }
        i = i + 1;
    }
    assert(all@.take(all@.len() as int) == all@);
    r
}

/// The widths, among `probed`, whose probe compiled, in their order: each
/// gets its capability condition.
pub open spec fn capable_spec(probed: Seq<(CInt, bool)>) -> Seq<CInt>
    decreases probed.len(),
{
    if probed.len() == 0 {
        seq![]
    } else {
        let rest = capable_spec(probed.drop_last());
        if probed.last().1 {
            rest.push(probed.last().0)
        } else {
            rest
        }
    }
}

/// From the answers of the probe, one pair per width that was probed (a
/// width that is switched off is not probed at all), the widths that get
/// their capability condition.
pub fn capable_widths(probed: &Vec<(CInt, bool)>) -> (r: Vec<CInt>)
    ensures
        r@ == capable_spec(probed@),
{
    let mut r: Vec<CInt> = Vec::new();
    let mut i: usize = 0;
    while i < probed.len()
        invariant
            i <= probed@.len(),
            r@ == capable_spec(probed@.take(i as int)),
        decreases probed@.len() - i,
    {
        assert(probed@.take(i as int + 1).drop_last() == probed@.take(i as int));
        let (w, compiled) = probed[i];
        if compiled {
            r.push(w);
        }
        i = i + 1;
    }
    assert(probed@.take(probed@.len() as int) == probed@);
    r
}

/// Which implementation stands behind a width's atomic.
#[derive(Clone, Copy, Debug, PartialEq, Eq, Structural)]
pub enum Backing {
    /// The target's own atomic type.
    Native,
    /// The spinlock-based fallback cell.
    Fallback,
}

/// The fallback stands behind a width exactly where the probe found no
/// native atomic for it.
pub fn select_backing(has_native: bool) -> (r: Backing)
    ensures
        r == Backing::Fallback <==> !has_native,
        r == Backing::Native <==> has_native,
{
    if has_native {
        Backing::Native
    } else {
        Backing::Fallback
    }
}

} // verus!
