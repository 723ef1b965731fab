//! Readable names for type descriptors.

use vstd::prelude::*;
use vstd::string::*;

verus! {

/// The number of `[` in `s`.
pub open spec fn count_brackets(s: Seq<char>) -> nat
    decreases s.len(),
{
    if s.len() == 0 {
        0
    } else {
        count_brackets(s.drop_last()) + if s.last() == '[' {
            1nat
        } else {
            0nat
        }
    }
}

/// `s` with a `.` for every `/`.
pub open spec fn dotted(s: Seq<char>) -> Seq<char> {
    Seq::new(
        s.len(),
        |i: int|
            if s[i] == '/' {
                '.'
            } else {
                s[i]
            },
    )
}

/// `[]`, `n` times.
pub open spec fn array_suffix(n: nat) -> Seq<char>
    decreases n,
{
    if n == 0 {
        Seq::empty()
    } else {
        array_suffix((n - 1) as nat) + "[]"@
    }
}

/// The readable name of an element type: the dotted name of a class
/// descriptor without its `L` and `;`, the keyword of a primitive, and
/// anything else as it is.
pub open spec fn element_name(name: Seq<char>) -> Seq<char> {
    if name.len() == 0 {
        name
    } else if name[0] == 'L' {
        dotted(
            name.subrange(
                1,
                if name.last() == ';' {
                    name.len() - 1
                } else {
                    name.len() as int
                },
            ),
        )
    } else if name[0] == 'B' {
        "byte"@
    } else if name[0] == 'C' {
        "char"@
    } else if name[0] == 'D' {
        "double"@
    } else if name[0] == 'F' {
        "float"@
    } else if name[0] == 'I' {
        "int"@
    } else if name[0] == 'J' {
        "long"@
    } else if name[0] == 'S' {
        "short"@
    } else if name[0] == 'Z' {
        "boolean"@
    } else if name[0] == 'V' {
        "void"@
    } else {
        name
    }
}

/// The readable name of a type descriptor: that of what stands behind its
/// first `n` characters, where `n` is the number of `[` in it, and then
/// `[]` that many times.
pub open spec fn pretty(desc: Seq<char>) -> Seq<char> {
    element_name(desc.skip(count_brackets(desc) as int)) + array_suffix(count_brackets(desc))
}

proof fn lemma_count_bound(s: Seq<char>)
    ensures
        count_brackets(s) <= s.len(),
    decreases s.len(),
{
    if s.len() > 0 {
        lemma_count_bound(s.drop_last());
    }
}

fn name_of_element(name: &Vec<char>) -> (r: String)
    ensures
        r@ == element_name(name@),
{
    let len = name.len();
    if len == 0 {
        let r = String::new();
        assert(r@ =~= name@);
        return r;
    }
    let first = name[0];
    if first == 'L' {
        let end = if name[len - 1] == ';' {
            len - 1
        } else {
            len
        };
        let mut out = String::new();
        let mut i: usize = 1;
        while i < end
            invariant
                1 <= i <= end <= len,
                len == name@.len(),
                out@ == dotted(name@.subrange(1, i as int)),
            decreases end - i,
        {
            let c = name[i];
            let ghost before = out@;
            out.push(
                if c == '/' {
                    '.'
                } else {
                    c
                },
            );
            i = i + 1;
            assert(out@ =~= dotted(name@.subrange(1, i as int)));
        }
        out
    } else if first == 'B' {
        String::from_str("byte")
    } else if first == 'C' {
        String::from_str("char")
    } else if first == 'D' {
        String::from_str("double")
    } else if first == 'F' {
        String::from_str("float")
    } else if first == 'I' {
        String::from_str("int")
    } else if first == 'J' {
        String::from_str("long")
    } else if first == 'S' {
        String::from_str("short")
    } else if first == 'Z' {
        String::from_str("boolean")
    } else if first == 'V' {
        String::from_str("void")
    } else {
        let mut out = String::new();
        let mut i: usize = 0;
        while i < len
            invariant
                i <= len,
                len == name@.len(),
                out@ == name@.take(i as int),
            decreases len - i,
        {
            out.push(name[i]);
            i = i + 1;
            assert(out@ =~= name@.take(i as int));
        }
        assert(name@.take(len as int) =~= name@);
        out
    }
}

/// Turns a type descriptor into a readable name: `[[I` into `int[][]`,
/// `Ljava/lang/String;` into `java.lang.String`.
pub fn pretty_desc(desc: &str) -> (r: String)
    ensures
        r@ == pretty(desc@),
{
    broadcast use vstd::string::axiom_spec_iter;

    let mut dim: usize = 0;
    let mut chars: Vec<char> = Vec::new();
    for c in it: desc.chars()
        invariant
            it.seq() == desc@,
            chars@ == desc@.take(it.index() as int),
            dim == count_brackets(desc@.take(it.index() as int)),
            dim <= it.index(),
    {
        proof {
            let next = desc@.take(it.index() + 1);
            assert(next.drop_last() =~= desc@.take(it.index() as int));
        }
        chars.push(c);
        let seen = chars.len();
        if c == '[' {
            dim = dim + 1;
        }
        assert(chars@ =~= desc@.take(it.index() + 1));
    }
    assert(desc@.take(desc@.len() as int) =~= desc@);
    let mut name: Vec<char> = Vec::new();
    let mut i: usize = dim;
    while i < chars.len()
        invariant
            dim <= i <= chars@.len(),
            name@ == chars@.subrange(dim as int, i as int),
        decreases chars.len() - i,
    {
        name.push(chars[i]);
        i = i + 1;
        assert(name@ =~= chars@.subrange(dim as int, i as int));
    }
    assert(name@ =~= desc@.skip(dim as int));
    let mut output = name_of_element(&name);
    let mut k: usize = 0;
    while k < dim
        invariant
            k <= dim,
            output@ == element_name(name@) + array_suffix(k as nat),
        decreases dim - k,
    {
        let ghost before = output@;
        output.append("[]");
        k = k + 1;
        assert(output@ =~= element_name(name@) + array_suffix(k as nat));
    }
    output
}

} // verus!
