//! Exactly specified string building for the generated artifact: option
//! assignments, list expressions, quote stripping and the `CONFIG_` prefix
//! handling, and lexical path resolution.

use vstd::prelude::*;

verus! {

/// One raw option assignment line: `name = value;` and a newline.
pub open spec fn spec_assign(name: Seq<char>, value: Seq<char>) -> Seq<char> {
    name + " = "@ + value + ";\n"@
}

/// One quoted-string option assignment line: `name = "value";` and a
/// newline.
pub open spec fn spec_assign_str(name: Seq<char>, value: Seq<char>) -> Seq<char> {
    name + " = \""@ + value + "\";\n"@
}

/// The items of a list expression, one per line.
pub open spec fn spec_items_lines(items: Seq<String>) -> Seq<char>
    decreases items.len(),
{
    if items.len() == 0 {
        Seq::empty()
    } else {
        spec_items_lines(items.drop_last()) + items.last()@ + "\n"@
    }
}

/// The items of a list expression, each quoted, one per line.
pub open spec fn spec_quoted_items_lines(items: Seq<String>) -> Seq<char>
    decreases items.len(),
{
    if items.len() == 0 {
        Seq::empty()
    } else {
        spec_quoted_items_lines(items.drop_last()) + "\""@ + items.last()@ + "\"\n"@
    }
}

/// The items joined with single spaces.
pub open spec fn spec_join_space(items: Seq<String>) -> Seq<char>
    decreases items.len(),
{
    if items.len() == 0 {
        Seq::empty()
    } else if items.len() == 1 {
        items[0]@
    } else {
        spec_join_space(items.drop_last()) + " "@ + items.last()@
    }
}

/// The characters of `s` with every double-quote character removed.
pub open spec fn spec_strip_quotes(s: Seq<char>) -> Seq<char>
    decreases s.len(),
{
    if s.len() == 0 {
        Seq::empty()
    } else {
        spec_strip_quotes(s.drop_last()) + (if s.last() == '"' {
            Seq::<char>::empty()
        } else {
            seq![s.last()]
        })
    }
}

/// Whether `s` starts with the seven characters `CONFIG_`.
pub open spec fn spec_has_config_prefix(s: Seq<char>) -> bool {
    s.len() >= 7 && s.subrange(0, 7) == "CONFIG_"@
}

/// `s` with its leading `CONFIG_` removed.
pub open spec fn spec_strip_config(s: Seq<char>) -> Seq<char> {
    s.subrange(7, s.len() as int)
}

/// A path made absolute against a working directory, lexically: an already
/// absolute path is kept, any other is appended to the directory.
pub open spec fn spec_resolve_path(curdir: Seq<char>, p: Seq<char>) -> Seq<char> {
    if p.len() > 0 && p[0] == '/' {
        p
    } else {
        curdir + "/"@ + p
    }
}

/// Concatenation of character sequences is associative.
pub(crate) proof fn lemma_add_assoc(a: Seq<char>, b: Seq<char>, c: Seq<char>)
    ensures
        (a + b) + c == a + (b + c),
{
    assert((a + b) + c =~= a + (b + c));
}

/// The empty sequence is neutral for concatenation.
pub(crate) proof fn lemma_add_empty(a: Seq<char>)
    ensures
        a + Seq::<char>::empty() == a,
        Seq::<char>::empty() + a == a,
{
    assert(a + Seq::<char>::empty() =~= a);
    assert(Seq::<char>::empty() + a =~= a);
}

/// Appends `name = value;` and a newline.
pub(crate) fn append_assign(out: &mut String, name: &str, value: &str)
    ensures
        final(out)@ == old(out)@ + spec_assign(name@, value@),
{
    out.append(name);
    out.append(" = ");
    out.append(value);
    out.append(";\n");
    proof {
        assert(out@ =~= old(out)@ + spec_assign(name@, value@));
    }
}

/// Appends `name = "value";` and a newline.
pub(crate) fn append_assign_str(out: &mut String, name: &str, value: &str)
    ensures
        final(out)@ == old(out)@ + spec_assign_str(name@, value@),
{
    out.append(name);
    out.append(" = \"");
    out.append(value);
    out.append("\";\n");
    proof {
        assert(out@ =~= old(out)@ + spec_assign_str(name@, value@));
    }
}

/// Renders a package list as a package-set expression, one item per line.
pub(crate) fn packages_value(items: &Vec<String>) -> (r: String)
    ensures
        r@ == "with pkgs; ["@ + spec_items_lines(items@) + "]"@,
{
    let mut s: String = "with pkgs; [".to_owned();
    let mut i: usize = 0;
    while i < items.len()
        invariant
            i <= items.len(),
            s@ == "with pkgs; ["@ + spec_items_lines(items@.take(i as int)),
        decreases items.len() - i,
    {
        s.append(items[i].as_str());
        s.append("\n");
        proof {
            assert(items@.take(i + 1 as int).drop_last() =~= items@.take(i as int));
            assert(s@ =~= "with pkgs; ["@ + spec_items_lines(items@.take(i + 1 as int)));
        }
        i += 1;
    }
    proof {
        assert(items@.take(items.len() as int) =~= items@);
    }
    s.concat("]")
}

/// Renders a quoted-string list expression, one quoted item per line.
pub(crate) fn quoted_list_value(items: &Vec<String>) -> (r: String)
    ensures
        r@ == "["@ + spec_quoted_items_lines(items@) + "]"@,
{
    let mut s: String = "[".to_owned();
    let mut i: usize = 0;
    while i < items.len()
        invariant
            i <= items.len(),
            s@ == "["@ + spec_quoted_items_lines(items@.take(i as int)),
        decreases items.len() - i,
    {
        s.append("\"");
        s.append(items[i].as_str());
        s.append("\"\n");
        proof {
            assert(items@.take(i + 1 as int).drop_last() =~= items@.take(i as int));
            assert(s@ =~= "["@ + spec_quoted_items_lines(items@.take(i + 1 as int)));
        }
        i += 1;
    }
    proof {
        assert(items@.take(items.len() as int) =~= items@);
    }
    s.concat("]")
}

/// Renders a named-preset list as a preset-set expression, the names joined
/// with spaces.
pub(crate) fn flavors_value(items: &Vec<String>) -> (r: String)
    ensures
        r@ == "with pkgs.kconfigs; ["@ + spec_join_space(items@) + "]"@,
{
    let mut s: String = "with pkgs.kconfigs; [".to_owned();
    let mut i: usize = 0;
    while i < items.len()
        invariant
            i <= items.len(),
            s@ == "with pkgs.kconfigs; ["@ + spec_join_space(items@.take(i as int)),
        decreases items.len() - i,
    {
        if i > 0 {
            s.append(" ");
        }
        s.append(items[i].as_str());
        proof {
            assert(items@.take(i + 1 as int).drop_last() =~= items@.take(i as int));
            assert(items@.take(i + 1 as int).len() == i + 1);
            if i == 0 {
                assert(spec_join_space(items@.take(1int)) == items@.take(1int)[0]@);
                assert(items@.take(1int)[0] == items@[0]);
            }
            assert(s@ =~= "with pkgs.kconfigs; ["@ + spec_join_space(items@.take(i + 1 as int)));
        }
        i += 1;
    }
    proof {
        assert(items@.take(items.len() as int) =~= items@);
    }
    s.concat("]")
}

/// Relies on String::push: appends one character to the string.
#[verifier::external_body]
pub(crate) fn push_char(s: &mut String, c: char)
    ensures
        final(s)@ == old(s)@.push(c),
{
    s.push(c);
}

/// Copies `s` with every double-quote character removed, the form in which
/// raw kconfig values are re-embedded unquoted.
pub(crate) fn strip_quotes(s: &str) -> (r: String)
    ensures
        r@ == spec_strip_quotes(s@),
{
    let n = s.unicode_len();
    let mut out = String::new();
    let mut i: usize = 0;
    while i < n
        invariant
            i <= n == s@.len(),
            out@ == spec_strip_quotes(s@.take(i as int)),
        decreases n - i,
    {
        let c = s.get_char(i);
        if c != '"' {
            push_char(&mut out, c);
        }
        proof {
            assert(s@.take(i + 1 as int).drop_last() =~= s@.take(i as int));
            assert(s@.take(i + 1 as int).last() == s@[i as int]);
            assert(out@ =~= spec_strip_quotes(s@.take(i + 1 as int)));
        }
        i += 1;
    }
    proof {
        assert(s@.take(n as int) =~= s@);
    }
    out
}

/// Removes the mandatory `CONFIG_` prefix from a raw kconfig option name,
/// or reports that the name does not carry it.
pub(crate) fn strip_config_prefix(name: &str) -> (r: Option<String>)
    ensures
        match r {
            Some(s) => spec_has_config_prefix(name@) && s@ == spec_strip_config(name@),
            None => !spec_has_config_prefix(name@),
        },
{
    proof {
        reveal_strlit("CONFIG_");
    }
    let prefix = "CONFIG_";
    let n = name.unicode_len();
    if n < 7 {
        return None;
    }
    let mut i: usize = 0;
    while i < 7
        invariant
            i <= 7,
            7 <= n == name@.len(),
            prefix@ == "CONFIG_"@,
            prefix@.len() == 7,
            forall|j: int| 0 <= j < i ==> name@[j] == "CONFIG_"@[j],
        decreases 7 - i,
    {
        if name.get_char(i) != prefix.get_char(i) {
            proof {
                assert(!spec_has_config_prefix(name@)) by {
                    if name@.subrange(0, 7) == "CONFIG_"@ {
                        assert(name@.subrange(0, 7)[i as int] == name@[i as int]);
                    }
                }
            }
            return None;
        }
        i += 1;
    }
    proof {
        assert(name@.subrange(0, 7) =~= "CONFIG_"@);
    }
    let rest = name.substring_char(7, n);
    Some(rest.to_owned())
}

/// Resolves `p` against `curdir`, lexically: an absolute path is returned
/// as it is, a relative one is joined onto the directory.
pub(crate) fn resolve_path(curdir: &str, p: &str) -> (r: String)
    ensures
        r@ == spec_resolve_path(curdir@, p@),
{
    let n = p.unicode_len();
    if n > 0 && p.get_char(0) == '/' {
        p.to_owned()
    } else {
        curdir.to_owned().concat("/").concat(p)
    }
}

} // verus!
