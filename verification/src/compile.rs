use vstd::prelude::*;

use crate::account::Address;

verus! {

/// A compiled module blob: the bytecode stands behind its two admission-relevant
/// facts, the self-declared address and the module name.
#[derive(Clone, Debug)]
pub struct CompiledModule {
    pub address: Address,
    pub name: Vec<char>,
}

pub struct ModuleView {
    pub address: Address,
    pub name: Seq<char>,
}

impl View for CompiledModule {
    type V = ModuleView;

    open spec fn view(&self) -> ModuleView {
        ModuleView { address: self.address, name: self.name@ }
    }
}

pub open spec fn is_space_char(c: char) -> bool {
    c == ' ' || c == '\n' || c == '\t' || c == '\r'
}

pub open spec fn is_name_char(c: char) -> bool {
    !is_space_char(c) && c != '{' && c != '}'
}

pub open spec fn space_pred() -> spec_fn(char) -> bool {
    |c: char| is_space_char(c)
}

pub open spec fn name_pred() -> spec_fn(char) -> bool {
    |c: char| is_name_char(c)
}

/// The first index at or after `i` whose character fails `p` (or the end).
pub open spec fn span_end(s: Seq<char>, i: int, p: spec_fn(char) -> bool) -> int
    decreases s.len() - i when 0 <= i <= s.len()
{
    if i < s.len() && p(s[i]) {
        span_end(s, i + 1, p)
    } else {
        i
    }
}

/// What the compile collaborator reads out of a textual module: optional
/// leading whitespace, the keyword `module`, whitespace, then the module name.
pub open spec fn spec_module_name(s: Seq<char>) -> Option<Seq<char>> {
    let kw_start = span_end(s, 0, space_pred());
    if kw_start + 6 <= s.len() && s.subrange(kw_start, kw_start + 6) =~= seq![
        'm',
        'o',
        'd',
        'u',
        'l',
        'e',
    ] {
        let name_start = span_end(s, kw_start + 6, space_pred());
        let name_end = span_end(s, name_start, name_pred());
        if name_start > kw_start + 6 && name_end > name_start {
            Some(s.subrange(name_start, name_end))
        } else {
            None
        }
    } else {
        None
    }
}

fn char_is_space(c: char) -> (r: bool)
    ensures
        r == is_space_char(c),
{
    c == ' ' || c == '\n' || c == '\t' || c == '\r'
}

fn char_is_name(c: char) -> (r: bool)
    ensures
        r == is_name_char(c),
{
    !char_is_space(c) && c != '{' && c != '}'
}

fn skip_while_space(s: &str, from: usize, len: usize) -> (r: usize)
    requires
        len == s@.len(),
        from <= len,
    ensures
        r == span_end(s@, from as int, space_pred()),
        from <= r <= len,
{
    let mut i: usize = from;
    while i < len && char_is_space(s.get_char(i))
        invariant
            from <= i <= len,
            len == s@.len(),
            span_end(s@, from as int, space_pred()) == span_end(s@, i as int, space_pred()),
        decreases len - i,
    {
        proof {
            assert(space_pred()(s@[i as int]));
            assert(span_end(s@, i as int, space_pred()) == span_end(s@, i + 1, space_pred()));
        }
        i = i + 1;
    }
    proof {
        if i < len {
            assert(!space_pred()(s@[i as int]));
        }
        assert(span_end(s@, i as int, space_pred()) == i);
    }
    i
}

fn skip_while_name(s: &str, from: usize, len: usize) -> (r: usize)
    requires
        len == s@.len(),
        from <= len,
    ensures
        r == span_end(s@, from as int, name_pred()),
        from <= r <= len,
{
    let mut i: usize = from;
    while i < len && char_is_name(s.get_char(i))
        invariant
            from <= i <= len,
            len == s@.len(),
            span_end(s@, from as int, name_pred()) == span_end(s@, i as int, name_pred()),
        decreases len - i,
    {
        proof {
            assert(name_pred()(s@[i as int]));
            assert(span_end(s@, i as int, name_pred()) == span_end(s@, i + 1, name_pred()));
        }
        i = i + 1;
    }
    proof {
        if i < len {
            assert(!name_pred()(s@[i as int]));
        }
        assert(span_end(s@, i as int, name_pred()) == i);
    }
    i
}

/// The compile collaborator's contract: turn textual module source into a
/// bytecode blob whose self-declared address equals the `address` argument.
/// The file name is diagnostic only. Returns `None` when the source does not
/// start with a `module <name>` header.
pub fn compile_module_with_address(address: &Address, _file_name: &str, source: &str) -> (r: Option<
    CompiledModule,
>)
    ensures
        r is Some <==> spec_module_name(source@) is Some,
        r matches Some(m) ==> {
            &&& m@.address == *address
            &&& Some(m@.name) == spec_module_name(source@)
        },
{
    let len = source.unicode_len();
    let kw_start = skip_while_space(source, 0, len);
    if len - kw_start < 6 {
        proof {
            assert(spec_module_name(source@) is None);
        }
        return None;
    }
    let keyword_ok = source.get_char(kw_start) == 'm' && source.get_char(kw_start + 1) == 'o'
        && source.get_char(kw_start + 2) == 'd' && source.get_char(kw_start + 3) == 'u'
        && source.get_char(kw_start + 4) == 'l' && source.get_char(kw_start + 5) == 'e';
    proof {
        let kw = seq!['m', 'o', 'd', 'u', 'l', 'e'];
        let sub = source@.subrange(kw_start as int, kw_start + 6);
        if keyword_ok {
            assert(sub =~= kw);
        } else {
            assert(sub[0] == source@[kw_start as int]);
            assert(sub[1] == source@[kw_start + 1]);
            assert(sub[2] == source@[kw_start + 2]);
            assert(sub[3] == source@[kw_start + 3]);
            assert(sub[4] == source@[kw_start + 4]);
            assert(sub[5] == source@[kw_start + 5]);
            assert(!(sub =~= kw));
            assert(spec_module_name(source@) is None);
        }
    }
    if !keyword_ok {
        return None;
    }
    let name_start = skip_while_space(source, kw_start + 6, len);
    let name_end = skip_while_name(source, name_start, len);
    if name_start == kw_start + 6 || name_end == name_start {
        proof {
            assert(spec_module_name(source@) is None);
        }
        return None;
    }
    let mut name: Vec<char> = Vec::new();
    let mut i: usize = name_start;
    while i < name_end
        invariant
            name_start <= i <= name_end <= len,
            len == source@.len(),
            name@ =~= source@.subrange(name_start as int, i as int),
        decreases name_end - i,
    {
        name.push(source.get_char(i));
        i = i + 1;
    }
    proof {
        assert(name@ =~= source@.subrange(name_start as int, name_end as int));
    }
    Some(CompiledModule { address: *address, name })
}

} // verus!
