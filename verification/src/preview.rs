//! The bodies of the function calls the preview pane sends to its embedded
//! view: a call of a method of the page's graph object, with the arguments
//! passed under the names `arg0`, `arg1`, and so on.

use vstd::prelude::*;

verus! {

/// The decimal digits of `n`.
pub open spec fn decimal_digits(n: int) -> Seq<u8>
    decreases n,
{
    if n < 0 {
        Seq::empty()
    } else if n < 10 {
        seq![(48 + n) as u8]
    } else {
        decimal_digits(n / 10) + seq![(48 + n % 10) as u8]
    }
}

/// The name of argument `i`: `arg` and its number.
pub open spec fn arg_name(i: int) -> Seq<u8> {
    seq![97u8, 114u8, 103u8] + decimal_digits(i)
}

/// The first `n` argument names, joined with `, `.
pub open spec fn arg_list(n: int) -> Seq<u8>
    decreases n,
{
    if n <= 0 {
        Seq::empty()
    } else if n == 1 {
        arg_name(0)
    } else {
        arg_list(n - 1) + seq![44u8, 32u8] + arg_name(n - 1)
    }
}

/// The bytes of `return graphView.`, the start of every call body.
pub open spec fn call_prefix() -> Seq<u8> {
    seq![
        114u8,
        101u8,
        116u8,
        117u8,
        114u8,
        110u8,
        32u8,
        103u8,
        114u8,
        97u8,
        112u8,
        104u8,
        86u8,
        105u8,
        101u8,
        119u8,
        46u8,
    ]
}

/// The body of a call of `method` with `n` arguments.
pub open spec fn spec_js_call_body(method: Seq<u8>, n: int) -> Seq<u8> {
    call_prefix() + method + seq![40u8] + arg_list(n) + seq![41u8]
}

fn push_decimal(out: &mut Vec<u8>, n: usize)
    ensures
        final(out)@ == old(out)@ + decimal_digits(n as int),
    decreases n,
{
    if n < 10 {
        out.push(48 + (n as u8));
        assert(out@ =~= old(out)@ + decimal_digits(n as int));
    } else {
        push_decimal(out, n / 10);
        out.push(48 + ((n % 10) as u8));
        assert(out@ =~= old(out)@ + decimal_digits(n as int));
    }
}

fn push_arg_name(out: &mut Vec<u8>, i: usize)
    ensures
        final(out)@ == old(out)@ + arg_name(i as int),
{
    out.push(97);
    out.push(114);
    out.push(103);
    push_decimal(out, i);
    assert(out@ =~= old(out)@ + arg_name(i as int));
}

/// The body of the call the preview sends for `method` with `n_args`
/// arguments: it returns the result of the graph object's method, applied
/// to the numbered arguments.
pub fn js_call_body(method: &[u8], n_args: usize) -> (r: Vec<u8>)
    ensures
        r@ == spec_js_call_body(method@, n_args as int),
{
    let mut out: Vec<u8> = Vec::new();
    out.push(114);
    out.push(101);
    out.push(116);
    out.push(117);
    out.push(114);
    out.push(110);
    out.push(32);
    out.push(103);
    out.push(114);
    out.push(97);
    out.push(112);
    out.push(104);
    out.push(86);
    out.push(105);
    out.push(101);
    out.push(119);
    out.push(46);
    assert(out@ =~= call_prefix());
    let n = method.len();
    let mut i: usize = 0;
    while i < n
        invariant
            n == method@.len(),
            i <= n,
            out@ =~= call_prefix() + method@.take(i as int),
        decreases n - i,
    {
        out.push(method[i]);
        assert(out@ =~= call_prefix() + method@.take(i + 1));
        i += 1;
    }
    assert(out@ =~= call_prefix() + method@);
    out.push(40);
    let ghost head = call_prefix() + method@ + seq![40u8];
    assert(out@ =~= head);
    let mut a: usize = 0;
    while a < n_args
        invariant
            a <= n_args,
            head == call_prefix() + method@ + seq![40u8],
            out@ =~= head + arg_list(a as int),
        decreases n_args - a,
    {
        if a > 0 {
            out.push(44);
            out.push(32);
        }
        push_arg_name(&mut out, a);
        assert(out@ =~= head + arg_list(a + 1));
        a += 1;
    }
    out.push(41);
    assert(out@ =~= spec_js_call_body(method@, n_args as int));
    out
}

} // verus!
