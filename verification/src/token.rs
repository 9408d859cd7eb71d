//! Percent-token expansion: `%x` is replaced by the value bound to `x`,
//! `%%` by a literal percent sign, and an unbound token is an error.

use vstd::prelude::*;
use crate::text::chars_of;
use crate::text::string_from_chars;

verus! {

/// A token table as the specification sees it: each binding's value as its
/// characters.
pub open spec fn table_view(m: Seq<(char, String)>) -> Seq<(char, Seq<char>)> {
    m.map_values(|p: (char, String)| (p.0, p.1@))
}

/// The value bound to a token character, first binding first.
pub open spec fn assoc(m: Seq<(char, Seq<char>)>, c: char) -> Option<Seq<char>>
    decreases m.len(),
{
    if m.len() == 0 {
        Option::None
    } else if m[0].0 == c {
        Option::Some(m[0].1)
    } else {
        assoc(m.drop_first(), c)
    }
}

/// Expansion of `s[i..]` with `replace` telling whether a percent sign is
/// pending: the expanded text, or the first unbound token character.  A
/// percent sign pending at the very end of the input is dropped.
pub open spec fn expand_from(s: Seq<char>, m: Seq<(char, Seq<char>)>, i: int, replace: bool) -> Result<
    Seq<char>,
    char,
>
    decreases s.len() - i,
{
    if i < 0 || i >= s.len() {
        Result::Ok(Seq::empty())
    } else {
        let c = s[i];
        if replace && c == '%' {
            match expand_from(s, m, i + 1, false) {
                Result::Ok(rest) => Result::Ok(seq!['%'] + rest),
                Result::Err(e) => Result::Err(e),
            }
        } else if replace {
            match assoc(m, c) {
                Option::Some(v) => match expand_from(s, m, i + 1, false) {
                    Result::Ok(rest) => Result::Ok(v + rest),
                    Result::Err(e) => Result::Err(e),
                },
                Option::None => Result::Err(c),
            }
        } else if c == '%' {
            expand_from(s, m, i + 1, true)
        } else {
            match expand_from(s, m, i + 1, false) {
                Result::Ok(rest) => Result::Ok(seq![c] + rest),
                Result::Err(e) => Result::Err(e),
            }
        }
    }
}

/// The whole expansion of a string under a token table.
pub open spec fn expand_spec(s: Seq<char>, m: Seq<(char, Seq<char>)>) -> Result<Seq<char>, char> {
    expand_from(s, m, 0, false)
}

/// The first binding for `c` in the table, if any.
pub(crate) fn lookup(map: &Vec<(char, String)>, c: char) -> (r: Option<&String>)
    ensures
        match r {
            Option::Some(v) => assoc(table_view(map@), c) == Option::Some(v@),
            Option::None => assoc(table_view(map@), c) is None,
        },
{
    let mut i: usize = 0;
    proof {
        assert(table_view(map@).skip(0) =~= table_view(map@));
    }
    while i < map.len()
        invariant
            i <= map@.len(),
            assoc(table_view(map@), c) == assoc(table_view(map@).skip(i as int), c),
        decreases map@.len() - i,
    {
        proof {
            assert(table_view(map@).skip(i as int)[0] == table_view(map@)[i as int]);
            assert(table_view(map@)[i as int] == (map@[i as int].0, map@[i as int].1@));
            assert(table_view(map@).skip(i as int).drop_first() =~= table_view(map@).skip(
                i as int + 1,
            ));
        }
        if map[i].0 == c {
            return Option::Some(&map[i].1);
        }
        i = i + 1;
    }
    Option::None
}

/// Expands every `%`-token of `string` under the table, exactly as
/// `expand_spec` describes: `%%` yields `%`, a bound token its value, and
/// the first unbound token is returned as the error.
pub fn expand(string: &str, map: &Vec<(char, String)>) -> (r: Result<String, char>)
    ensures
        match expand_spec(string@, table_view(map@)) {
            Result::Ok(v) => r matches Ok(rs) && rs@ == v,
            Result::Err(c) => r matches Err(e) && e == c,
        },
{
    let s = chars_of(string);
    let mut res: Vec<char> = Vec::new();
    let mut replace_next: bool = false;
    let mut i: usize = 0;
    while i < s.len()
        invariant
            i <= s@.len(),
            s@ == string@,
            ({
                let total = expand_spec(string@, table_view(map@));
                let tail = expand_from(string@, table_view(map@), i as int, replace_next);
                match tail {
                    Result::Ok(rest) => total == Result::<Seq<char>, char>::Ok(res@ + rest),
                    Result::Err(c) => total == Result::<Seq<char>, char>::Err(c),
                }
            }),
        decreases s@.len() - i,
    {
        let c = s[i];
        let ghost pre = res@;
        if replace_next && c == '%' {
            replace_next = false;
            res.push(c);
            proof {
                if let Result::Ok(rest) = expand_from(string@, table_view(map@), i as int + 1, false) {
                    assert(pre + (seq![c] + rest) =~= res@ + rest);
                }
            }
        } else if replace_next {
            replace_next = false;
            match lookup(map, c) {
                Option::Some(value) => {
                    let mut vc = chars_of(value.as_str());
                    let ghost vview = vc@;
                    res.append(&mut vc);
                    proof {
                        if let Result::Ok(rest) = expand_from(string@, table_view(map@), i as int + 1, false) {
                            assert(pre + (vview + rest) =~= res@ + rest);
                        }
                    }
                },
                Option::None => {
                    return Result::Err(c);
                },
            }
        } else if c == '%' {
            replace_next = true;
        } else {
            res.push(c);
            proof {
                if let Result::Ok(rest) = expand_from(string@, table_view(map@), i as int + 1, false) {
                    assert(pre + (seq![c] + rest) =~= res@ + rest);
                }
            }
        }
        i = i + 1;
    }
    Result::Ok(string_from_chars(&res))
}

} // verus!
