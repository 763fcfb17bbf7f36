use vstd::prelude::*;
use vstd::string::*;

verus! {

/// The placeholder that message templates use for the joining user's id.
pub open spec fn id_token() -> Seq<char> {
    seq!['@', '{', 'i', 'd', '}']
}

/// True when the placeholder `@{id}` starts at position `i` of `t`.
pub open spec fn token_at(t: Seq<char>, i: int) -> bool {
    &&& 0 <= i
    &&& i + 5 <= t.len()
    &&& t[i] == '@'
    &&& t[i + 1] == '{'
    &&& t[i + 2] == 'i'
    &&& t[i + 3] == 'd'
    &&& t[i + 4] == '}'
}

/// The template `t` with every placeholder `@{id}` replaced by `id`, read
/// from left to right.
pub open spec fn render(t: Seq<char>, id: Seq<char>) -> Seq<char>
    decreases t.len(),
{
    if t.len() == 0 {
        Seq::empty()
    } else if token_at(t, 0) {
        id + render(t.subrange(5, t.len() as int), id)
    } else {
        seq![t[0]] + render(t.subrange(1, t.len() as int), id)
    }
}

/// Fills a message template: each `@{id}` in `template` becomes `id`.
pub fn render_message(template: &str, id: &str) -> (r: String)
    ensures
        r@ == render(template@, id@),
{
    let n = template.unicode_len();
    let mut out = String::new();
    let mut start: usize = 0;
    let mut i: usize = 0;
    proof {
        assert(template@.subrange(0, n as int) =~= template@);
        assert(out@ + template@.subrange(0, 0) =~= Seq::<char>::empty());
    }
    while i < n
        invariant
            n == template@.len(),
            start <= i <= n,
            out@ + template@.subrange(start as int, i as int) + render(
                template@.subrange(i as int, n as int),
                id@,
            ) == render(template@, id@),
        decreases n - i,
    {
        let ghost t = template@;
        let ghost rest = t.subrange(i as int, n as int);
        if n - i >= 5 && template.get_char(i) == '@' && template.get_char(i + 1) == '{'
            && template.get_char(i + 2) == 'i' && template.get_char(i + 3) == 'd'
            && template.get_char(i + 4) == '}' {
            proof {
                assert(token_at(rest, 0));
                assert(rest.subrange(5, rest.len() as int) =~= t.subrange(i + 5, n as int));
            }
            out.append(template.substring_char(start, i));
            out.append(id);
            i = i + 5;
            start = i;
            proof {
                assert(t.subrange(start as int, i as int) =~= Seq::<char>::empty());
            }
        } else {
            proof {
                assert(!token_at(rest, 0));
                assert(rest.subrange(1, rest.len() as int) =~= t.subrange(i + 1, n as int));
                assert(t.subrange(start as int, i as int) + seq![t[i as int]] =~= t.subrange(
                    start as int,
                    i + 1,
                ));
            }
            i = i + 1;
        }
    }
    out.append(template.substring_char(start, n));
    proof {
        assert(template@.subrange(n as int, n as int) =~= Seq::<char>::empty());
        assert(out@ =~= out@ + Seq::<char>::empty());
    }
    out
}

} // verus!
