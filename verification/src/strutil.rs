//! Small verified string utilities shared by the builder and the
//! emitter: bulk appends that preserve element order, decimal rendering
//! of numbers, and comma-joining of lists.

use vstd::prelude::*;
use vstd::string::StringExecFns;
use vstd::slice::slice_index_get;

verus! {

/// Appends an owned copy of every string in `items` to `dst`, in order.
pub(crate) fn push_all_strs(dst: &mut Vec<String>, items: &[&str])
    ensures
        final(dst).deep_view() == old(dst).deep_view() + items.deep_view(),
{
    let ghost pre: Seq<Seq<char>> = dst.deep_view();
    let mut i: usize = 0;
    proof {
        assert(dst.deep_view() =~= pre + items.deep_view().take(0));
    }
    while i < items.len()
        invariant
            i <= items@.len(),
            dst.deep_view() == pre + items.deep_view().take(i as int),
        decreases items@.len() - i,
    {
        let ghost dpre: Seq<String> = dst@;
        let ghost dpredv: Seq<Seq<char>> = dst.deep_view();
        let s: &&str = slice_index_get(items, i);
        dst.push((*s).to_owned());
        proof {
            assert(dpredv.len() == pre.len() + i);
            assert(dst@.len() == pre.len() + i + 1);
            assert(dst@[dpre.len() as int]@ == items.deep_view()[i as int]);
            assert forall|k: int| 0 <= k < dst@.len() implies dst.deep_view()[k] == (pre
                + items.deep_view().take(i as int + 1))[k] by {
                assert(dst.deep_view()[k] == dst@[k].deep_view());
                if k < dpre.len() {
                    assert(dst@[k] == dpre[k]);
                    assert(dpredv[k] == dpre[k].deep_view());
                }
            }
            assert(dst.deep_view() =~= pre + items.deep_view().take(i as int + 1));
        }
        i = i + 1;
    }
    proof {
        assert(items.deep_view().take(items@.len() as int) =~= items.deep_view());
    }
}

/// Appends an owned copy of every string in `items` to `dst`, in order.
pub(crate) fn push_all_strings(dst: &mut Vec<String>, items: &Vec<String>)
    ensures
        final(dst).deep_view() == old(dst).deep_view() + items.deep_view(),
{
    let ghost pre: Seq<Seq<char>> = dst.deep_view();
    let mut i: usize = 0;
    proof {
        assert(dst.deep_view() =~= pre + items.deep_view().take(0));
    }
    while i < items.len()
        invariant
            i <= items@.len(),
            dst.deep_view() == pre + items.deep_view().take(i as int),
        decreases items@.len() - i,
    {
        let ghost dpre: Seq<String> = dst@;
        let ghost dpredv: Seq<Seq<char>> = dst.deep_view();
        dst.push(items[i].clone());
        proof {
            assert(dpredv.len() == pre.len() + i);
            assert(dst@.len() == pre.len() + i + 1);
            assert(dst@[dpre.len() as int]@ == items.deep_view()[i as int]);
            assert forall|k: int| 0 <= k < dst@.len() implies dst.deep_view()[k] == (pre
                + items.deep_view().take(i as int + 1))[k] by {
                assert(dst.deep_view()[k] == dst@[k].deep_view());
                if k < dpre.len() {
                    assert(dst@[k] == dpre[k]);
                    assert(dpredv[k] == dpre[k].deep_view());
                }
            }
            assert(dst.deep_view() =~= pre + items.deep_view().take(i as int + 1));
        }
        i = i + 1;
    }
    proof {
        assert(items.deep_view().take(items@.len() as int) =~= items.deep_view());
    }
}

/// Clones a vector of strings, preserving its mathematical value.
pub(crate) fn clone_string_vec(v: &Vec<String>) -> (r: Vec<String>)
    ensures
        r.deep_view() == v.deep_view(),
{
    let mut out: Vec<String> = Vec::new();
    proof {
        assert(out.deep_view() =~= Seq::<Seq<char>>::empty());
        assert(Seq::<Seq<char>>::empty() + v.deep_view() =~= v.deep_view());
    }
    push_all_strings(&mut out, v);
    out
}

/// Appends an owned copy of every path pair in `items` to `dst`, in order.
pub(crate) fn push_all_pairs(dst: &mut Vec<(String, String)>, items: &[(&str, &str)])
    ensures
        final(dst).deep_view() == old(dst).deep_view() + items.deep_view(),
{
    let ghost pre: Seq<(Seq<char>, Seq<char>)> = dst.deep_view();
    let mut i: usize = 0;
    proof {
        assert(dst.deep_view() =~= pre + items.deep_view().take(0));
    }
    while i < items.len()
        invariant
            i <= items@.len(),
            dst.deep_view() == pre + items.deep_view().take(i as int),
        decreases items@.len() - i,
    {
        let ghost dpre: Seq<(String, String)> = dst@;
        let ghost dpredv: Seq<(Seq<char>, Seq<char>)> = dst.deep_view();
        let p: &(&str, &str) = slice_index_get(items, i);
        dst.push((p.0.to_owned(), p.1.to_owned()));
        proof {
            assert(dpredv.len() == pre.len() + i);
            assert(dst@.len() == pre.len() + i + 1);
            assert(dst@[dpre.len() as int].deep_view() == items.deep_view()[i as int]);
            assert forall|k: int| 0 <= k < dst@.len() implies dst.deep_view()[k] == (pre
                + items.deep_view().take(i as int + 1))[k] by {
                assert(dst.deep_view()[k] == dst@[k].deep_view());
                if k < dpre.len() {
                    assert(dst@[k] == dpre[k]);
                    assert(dpredv[k] == dpre[k].deep_view());
                }
            }
            assert(dst.deep_view() =~= pre + items.deep_view().take(i as int + 1));
        }
        i = i + 1;
    }
    proof {
        assert(items.deep_view().take(items@.len() as int) =~= items.deep_view());
    }
}

/// Appends every number in `items` to `dst`, in order.
pub(crate) fn push_all_usizes(dst: &mut Vec<usize>, items: &[usize])
    ensures
        final(dst)@ == old(dst)@ + items@,
{
    let ghost pre: Seq<usize> = dst@;
    let mut i: usize = 0;
    proof {
        assert(dst@ =~= pre + items@.take(0));
    }
    while i < items.len()
        invariant
            i <= items@.len(),
            dst@ == pre + items@.take(i as int),
        decreases items@.len() - i,
    {
        let n: &usize = slice_index_get(items, i);
        dst.push(*n);
        proof {
            assert(dst@ =~= pre + items@.take(i as int + 1));
        }
        i = i + 1;
    }
    proof {
        assert(items@.take(items@.len() as int) =~= items@);
    }
}


/// The character of one decimal digit.
pub open spec fn digit_char(d: nat) -> char {
    if d == 0 {
        '0'
    } else if d == 1 {
        '1'
    } else if d == 2 {
        '2'
    } else if d == 3 {
        '3'
    } else if d == 4 {
        '4'
    } else if d == 5 {
        '5'
    } else if d == 6 {
        '6'
    } else if d == 7 {
        '7'
    } else if d == 8 {
        '8'
    } else {
        '9'
    }
}

/// The decimal rendering of a number, most significant digit first and
/// without leading zeros.
pub open spec fn decimal(n: nat) -> Seq<char>
    decreases n,
{
    if n < 10 {
        seq![digit_char(n)]
    } else {
        decimal(n / 10).push(digit_char(n % 10))
    }
}

/// One decimal digit as a string slice.
fn digit_str(d: usize) -> (r: &'static str)
    requires
        d < 10,
    ensures
        r@ == seq![digit_char(d as nat)],
{
    let r: &'static str = if d == 0 {
        proof {
            reveal_strlit("0");
        }
        "0"
    } else if d == 1 {
        proof {
            reveal_strlit("1");
        }
        "1"
    } else if d == 2 {
        proof {
            reveal_strlit("2");
        }
        "2"
    } else if d == 3 {
        proof {
            reveal_strlit("3");
        }
        "3"
    } else if d == 4 {
        proof {
            reveal_strlit("4");
        }
        "4"
    } else if d == 5 {
        proof {
            reveal_strlit("5");
        }
        "5"
    } else if d == 6 {
        proof {
            reveal_strlit("6");
        }
        "6"
    } else if d == 7 {
        proof {
            reveal_strlit("7");
        }
        "7"
    } else if d == 8 {
        proof {
            reveal_strlit("8");
        }
        "8"
    } else {
        proof {
            reveal_strlit("9");
        }
        "9"
    };
    proof {
        assert(r@ =~= seq![digit_char(d as nat)]);
    }
    r
}

/// Renders a number in decimal.
pub(crate) fn decimal_string(n: usize) -> (r: String)
    ensures
        r@ == decimal(n as nat),
    decreases n,
{
    if n < 10 {
        digit_str(n).to_owned()
    } else {
        let mut s = decimal_string(n / 10);
        let d = digit_str(n % 10);
        s.append(d);
        proof {
            assert(decimal((n / 10) as nat).push(digit_char((n % 10) as nat)) =~= decimal(
                (n / 10) as nat,
            ) + seq![digit_char((n % 10) as nat)]);
        }
        s
    }
}

/// The elements of a list joined with single commas, in list order.
pub open spec fn join_comma(l: Seq<Seq<char>>) -> Seq<char>
    decreases l.len(),
{
    if l.len() == 0 {
        Seq::empty()
    } else if l.len() == 1 {
        l[0]
    } else {
        join_comma(l.drop_last()) + seq![','] + l.last()
    }
}

/// Joins the strings of `items` with commas, in order.
pub(crate) fn join_comma_strings(items: &Vec<String>) -> (r: String)
    ensures
        r@ == join_comma(items.deep_view()),
{
    let ghost dv: Seq<Seq<char>> = items.deep_view();
    let mut out: String = String::new();
    let mut i: usize = 0;
    while i < items.len()
        invariant
            i <= items@.len(),
            dv == items.deep_view(),
            out@ == join_comma(dv.take(i as int)),
        decreases items@.len() - i,
    {
        proof {
            reveal_strlit(",");
        }
        if i > 0 {
            out.append(",");
        }
        out.append(items[i].as_str());
        proof {
            assert(dv[i as int] == items@[i as int]@);
            assert(dv.take(i as int + 1).drop_last() =~= dv.take(i as int));
            assert(dv.take(i as int + 1).last() == dv[i as int]);
            if i == 0 {
                assert(out@ =~= join_comma(dv.take(1)));
            } else {
                assert(","@ =~= seq![',']);
                assert(out@ =~= join_comma(dv.take(i as int)) + seq![','] + dv[i as int]);
                assert(out@ =~= join_comma(dv.take(i as int + 1)));
            }
        }
        i = i + 1;
    }
    proof {
        assert(dv.take(items@.len() as int) =~= dv);
    }
    out
}

/// Joins the numbers of `items`, rendered in decimal, with commas.
pub(crate) fn join_comma_decimals(items: &Vec<usize>) -> (r: String)
    ensures
        r@ == join_comma(items@.map_values(|n: usize| decimal(n as nat))),
{
    let ghost dv: Seq<Seq<char>> = items@.map_values(|n: usize| decimal(n as nat));
    let mut out: String = String::new();
    let mut i: usize = 0;
    while i < items.len()
        invariant
            i <= items@.len(),
            dv == items@.map_values(|n: usize| decimal(n as nat)),
            out@ == join_comma(dv.take(i as int)),
        decreases items@.len() - i,
    {
        proof {
            reveal_strlit(",");
        }
        if i > 0 {
            out.append(",");
        }
        let d = decimal_string(items[i]);
        out.append(d.as_str());
        proof {
            assert(dv[i as int] == decimal(items@[i as int] as nat));
            assert(dv.take(i as int + 1).drop_last() =~= dv.take(i as int));
            assert(dv.take(i as int + 1).last() == dv[i as int]);
            if i == 0 {
                assert(out@ =~= join_comma(dv.take(1)));
            } else {
                assert(","@ =~= seq![',']);
                assert(out@ =~= join_comma(dv.take(i as int)) + seq![','] + dv[i as int]);
                assert(out@ =~= join_comma(dv.take(i as int + 1)));
            }
        }
        i = i + 1;
    }
    proof {
        assert(dv.take(items@.len() as int) =~= dv);
    }
    out
}

} // verus!
