use vstd::prelude::*;

use crate::errors::BlockError;

verus! {

/// The mathematical shape of one compiled piece of a format string: either a
/// literal character run or one of the four recognized placeholders.
pub enum PartView {
    Lit(Seq<char>),
    Phase,
    Minutes,
    Seconds,
    Round,
}

/// One compiled piece of a format string, as executable data.
pub enum Part {
    Lit(String),
    PhaseSlot,
    MinutesSlot,
    SecondsSlot,
    RoundSlot,
}

impl View for Part {
    type V = PartView;

    open spec fn view(&self) -> PartView {
        match self {
            Part::Lit(t) => PartView::Lit(t@),
            Part::PhaseSlot => PartView::Phase,
            Part::MinutesSlot => PartView::Minutes,
            Part::SecondsSlot => PartView::Seconds,
            Part::RoundSlot => PartView::Round,
        }
    }
}

/// The `{phase}` placeholder, as characters.
pub open spec fn phase_ph() -> Seq<char> {
    seq!['{', 'p', 'h', 'a', 's', 'e', '}']
}

/// The `{remainingMinutes}` placeholder, as characters.
pub open spec fn minutes_ph() -> Seq<char> {
    seq![
        '{', 'r', 'e', 'm', 'a', 'i', 'n', 'i', 'n', 'g', 'M', 'i', 'n', 'u', 't', 'e', 's', '}',
    ]
}

/// The `{remainingSeconds}` placeholder, as characters.
pub open spec fn seconds_ph() -> Seq<char> {
    seq![
        '{', 'r', 'e', 'm', 'a', 'i', 'n', 'i', 'n', 'g', 'S', 'e', 'c', 'o', 'n', 'd', 's', '}',
    ]
}

/// The `{round}` placeholder, as characters.
pub open spec fn round_ph() -> Seq<char> {
    seq!['{', 'r', 'o', 'u', 'n', 'd', '}']
}

/// Whether `p` is a prefix of `s`.
pub open spec fn starts_with(s: Seq<char>, p: Seq<char>) -> bool {
    p.len() <= s.len() && s.subrange(0, p.len() as int) == p
}

/// Prepends a part to an already-parsed tail, passing a failure through.
pub open spec fn cons_part(p: PartView, rest: Option<Seq<PartView>>) -> Option<Seq<PartView>> {
    match rest {
        Some(v) => Some(seq![p] + v),
        None => None,
    }
}

/// The grammar of a format string. A `{` always opens a placeholder and must
/// begin one of the four recognized names, else the string is malformed; any
/// other character stands for itself. Each literal character becomes a part
/// of its own.
pub open spec fn parse_fmt(s: Seq<char>) -> Option<Seq<PartView>>
    decreases s.len(),
{
    if s.len() == 0 {
        Some(Seq::empty())
    } else if s[0] == '{' {
        if starts_with(s, phase_ph()) {
            cons_part(PartView::Phase, parse_fmt(s.skip(7)))
        } else if starts_with(s, minutes_ph()) {
            cons_part(PartView::Minutes, parse_fmt(s.skip(18)))
        } else if starts_with(s, seconds_ph()) {
            cons_part(PartView::Seconds, parse_fmt(s.skip(18)))
        } else if starts_with(s, round_ph()) {
            cons_part(PartView::Round, parse_fmt(s.skip(7)))
        } else {
            None
        }
    } else {
        cons_part(PartView::Lit(seq![s[0]]), parse_fmt(s.skip(1)))
    }
}

/// The view of a sequence of compiled parts.
pub open spec fn parts_view(ps: Seq<Part>) -> Seq<PartView> {
    Seq::new(ps.len(), |i: int| ps[i]@)
}

/// What one part contributes to the rendered text, given the four
/// substitution values.
pub open spec fn part_text(
    p: PartView,
    phase_s: Seq<char>,
    minutes_s: Seq<char>,
    seconds_s: Seq<char>,
    round_s: Seq<char>,
) -> Seq<char> {
    match p {
        PartView::Lit(t) => t,
        PartView::Phase => phase_s,
        PartView::Minutes => minutes_s,
        PartView::Seconds => seconds_s,
        PartView::Round => round_s,
    }
}

/// The text a compiled template renders to, given the four substitution
/// values: the concatenation of what each part contributes.
pub open spec fn render_parts(
    parts: Seq<PartView>,
    phase_s: Seq<char>,
    minutes_s: Seq<char>,
    seconds_s: Seq<char>,
    round_s: Seq<char>,
) -> Seq<char>
    decreases parts.len(),
{
    if parts.len() == 0 {
        Seq::empty()
    } else {
        part_text(parts[0], phase_s, minutes_s, seconds_s, round_s) + render_parts(
            parts.drop_first(),
            phase_s,
            minutes_s,
            seconds_s,
            round_s,
        )
    }
}

/// A prefix of `s` at offset `i` looks exactly like a prefix of the suffix
/// `s.skip(i)`.
proof fn lemma_match_starts_with(s: Seq<char>, i: int, pat: Seq<char>)
    requires
        0 <= i <= s.len(),
    ensures
        (i + pat.len() <= s.len() && s.subrange(i, i + pat.len() as int) == pat) <==> starts_with(
            s.skip(i),
            pat,
        ),
{
    if i + pat.len() <= s.len() {
        assert(s.skip(i).subrange(0, pat.len() as int) =~= s.subrange(i, i + pat.len() as int));
    }
}

/// Whether the characters of `pat` occur in `s` at offset `i`.
fn matches_at(s: &str, i: usize, pat: &str) -> (r: bool)
    requires
        i <= s@.len(),
    ensures
        r == (i + pat@.len() <= s@.len() && s@.subrange(i as int, i + pat@.len()) == pat@),
{
    let n: usize = s.unicode_len();
    let m: usize = pat.unicode_len();
    if m > n - i {
        return false;
    }
    let mut j: usize = 0;
    while j < m
        invariant
            i + m <= n,
            n == s@.len(),
            m == pat@.len(),
            j <= m,
            forall|k: int| 0 <= k < j ==> s@[i + k] == pat@[k],
        decreases m - j,
    {
        if s.get_char(i + j) != pat.get_char(j) {
            proof {
                assert(s@.subrange(i as int, i + pat@.len())[j as int] == s@[i + j]);
            }
            return false;
        }
        j = j + 1;
    }
    proof {
        assert(s@.subrange(i as int, i + pat@.len()) =~= pat@);
    }
    true
}

/// A compiled format string: the sequence of its parts.
pub struct Template {
    pub parts: Vec<Part>,
}

impl View for Template {
    type V = Seq<PartView>;

    open spec fn view(&self) -> Seq<PartView> {
        parts_view(self.parts@)
    }
}

impl Template {
    /// Compiles a format string: succeeds exactly on the strings the grammar
    /// accepts, and then holds their parts; a malformed or unrecognized
    /// placeholder is a `TemplateError`.
    pub fn from_string(s: &str) -> (r: Result<Template, BlockError>)
        ensures
            parse_fmt(s@) matches Some(v) ==> (r matches Ok(t) && t@ == v),
            parse_fmt(s@) is None ==> r matches Err(BlockError::TemplateError),
    {
        proof {
            assert(s@.skip(0) =~= s@);
        }
        match Self::parse_rest(s, 0) {
            Ok(parts) => Ok(Template { parts }),
            Err(e) => Err(e),
        }
    }

    /// Parses the suffix of `s` that starts at character `i`.
    fn parse_rest(s: &str, i: usize) -> (r: Result<Vec<Part>, BlockError>)
        requires
            i <= s@.len(),
        ensures
            match parse_fmt(s@.skip(i as int)) {
                Some(v) => r matches Ok(parts) && parts_view(parts@) == v,
                None => r matches Err(BlockError::TemplateError),
            },
        decreases s@.len() - i,
    {
        let ghost su = s@.skip(i as int);
        let n: usize = s.unicode_len();
        if i == n {
            proof {
                assert(su =~= Seq::<char>::empty());
                assert(parts_view(Seq::<Part>::empty()) =~= Seq::<PartView>::empty());
            }
            Ok(Vec::new())
        } else {
            let c = s.get_char(i);
            proof {
                assert(su[0] == s@[i as int]);
            }
            if c == '{' {
                if matches_at(s, i, "{phase}") {
                    proof {
                        reveal_strlit("{phase}");
                        assert("{phase}"@ =~= phase_ph());
                        lemma_match_starts_with(s@, i as int, phase_ph());
                        assert(su.skip(7) =~= s@.skip(i + 7));
                    }
                    match Self::parse_rest(s, i + 7) {
                        Ok(mut parts) => {
                            let ghost tail = parts@;
                            parts.insert(0, Part::PhaseSlot);
                            proof {
                                assert(parts_view(parts@) =~= seq![PartView::Phase] + parts_view(
                                    tail,
                                ));
                            }
                            Ok(parts)
                        },
                        Err(e) => Err(e),
                    }
                } else if matches_at(s, i, "{remainingMinutes}") {
                    proof {
                        reveal_strlit("{phase}");
                        assert("{phase}"@ =~= phase_ph());
                        lemma_match_starts_with(s@, i as int, phase_ph());
                        reveal_strlit("{remainingMinutes}");
                        assert("{remainingMinutes}"@ =~= minutes_ph());
                        lemma_match_starts_with(s@, i as int, minutes_ph());
                        assert(su.skip(18) =~= s@.skip(i + 18));
                    }
                    match Self::parse_rest(s, i + 18) {
                        Ok(mut parts) => {
                            let ghost tail = parts@;
                            parts.insert(0, Part::MinutesSlot);
                            proof {
                                assert(parts_view(parts@) =~= seq![PartView::Minutes] + parts_view(
                                    tail,
                                ));
                            }
                            Ok(parts)
                        },
                        Err(e) => Err(e),
                    }
                } else if matches_at(s, i, "{remainingSeconds}") {
                    proof {
                        reveal_strlit("{phase}");
                        assert("{phase}"@ =~= phase_ph());
                        lemma_match_starts_with(s@, i as int, phase_ph());
                        reveal_strlit("{remainingMinutes}");
                        assert("{remainingMinutes}"@ =~= minutes_ph());
                        lemma_match_starts_with(s@, i as int, minutes_ph());
                        reveal_strlit("{remainingSeconds}");
                        assert("{remainingSeconds}"@ =~= seconds_ph());
                        lemma_match_starts_with(s@, i as int, seconds_ph());
                        assert(su.skip(18) =~= s@.skip(i + 18));
                    }
                    match Self::parse_rest(s, i + 18) {
                        Ok(mut parts) => {
                            let ghost tail = parts@;
                            parts.insert(0, Part::SecondsSlot);
                            proof {
                                assert(parts_view(parts@) =~= seq![PartView::Seconds] + parts_view(
                                    tail,
                                ));
                            }
                            Ok(parts)
                        },
                        Err(e) => Err(e),
                    }
                } else if matches_at(s, i, "{round}") {
                    proof {
                        reveal_strlit("{phase}");
                        assert("{phase}"@ =~= phase_ph());
                        lemma_match_starts_with(s@, i as int, phase_ph());
                        reveal_strlit("{remainingMinutes}");
                        assert("{remainingMinutes}"@ =~= minutes_ph());
                        lemma_match_starts_with(s@, i as int, minutes_ph());
                        reveal_strlit("{remainingSeconds}");
                        assert("{remainingSeconds}"@ =~= seconds_ph());
                        lemma_match_starts_with(s@, i as int, seconds_ph());
                        reveal_strlit("{round}");
                        assert("{round}"@ =~= round_ph());
                        lemma_match_starts_with(s@, i as int, round_ph());
                        assert(su.skip(7) =~= s@.skip(i + 7));
                    }
                    match Self::parse_rest(s, i + 7) {
                        Ok(mut parts) => {
                            let ghost tail = parts@;
                            parts.insert(0, Part::RoundSlot);
                            proof {
                                assert(parts_view(parts@) =~= seq![PartView::Round] + parts_view(
                                    tail,
                                ));
                            }
                            Ok(parts)
                        },
                        Err(e) => Err(e),
                    }
                } else {
                    proof {
                        reveal_strlit("{phase}");
                        assert("{phase}"@ =~= phase_ph());
                        lemma_match_starts_with(s@, i as int, phase_ph());
                        reveal_strlit("{remainingMinutes}");
                        assert("{remainingMinutes}"@ =~= minutes_ph());
                        lemma_match_starts_with(s@, i as int, minutes_ph());
                        reveal_strlit("{remainingSeconds}");
                        assert("{remainingSeconds}"@ =~= seconds_ph());
                        lemma_match_starts_with(s@, i as int, seconds_ph());
                        reveal_strlit("{round}");
                        assert("{round}"@ =~= round_ph());
                        lemma_match_starts_with(s@, i as int, round_ph());
                    }
                    Err(BlockError::TemplateError)
                }
            } else {
                let lit = s.substring_char(i, i + 1);
                proof {
                    assert(lit@ =~= seq![su[0]]);
                    assert(su.skip(1) =~= s@.skip(i + 1));
                }
                match Self::parse_rest(s, i + 1) {
                    Ok(mut parts) => {
                        let ghost tail = parts@;
                        parts.insert(0, Part::Lit(String::from_str(lit)));
                        proof {
                            assert(parts_view(parts@) =~= seq![PartView::Lit(seq![su[0]])]
                                + parts_view(tail));
                        }
                        Ok(parts)
                    },
                    Err(e) => Err(e),
                }
            }
        }
    }

    /// Substitutes the four values into the template.
    pub fn render(
        &self,
        phase_s: &str,
        minutes_s: &str,
        seconds_s: &str,
        round_s: &str,
    ) -> (r: String)
        ensures
            r@ == render_parts(self@, phase_s@, minutes_s@, seconds_s@, round_s@),
    {
        proof {
            assert(self@.skip(0) =~= self@);
        }
        self.render_from(0, phase_s, minutes_s, seconds_s, round_s)
    }

    /// Renders the parts from index `k` on.
    fn render_from(
        &self,
        k: usize,
        phase_s: &str,
        minutes_s: &str,
        seconds_s: &str,
        round_s: &str,
    ) -> (r: String)
        requires
            k <= self.parts@.len(),
        ensures
            r@ == render_parts(self@.skip(k as int), phase_s@, minutes_s@, seconds_s@, round_s@),
        decreases self.parts@.len() - k,
    {
        if k == self.parts.len() {
            proof {
                assert(self@.skip(k as int) =~= Seq::<PartView>::empty());
            }
            String::new()
        } else {
            let p = &self.parts[k];
            let head: String = match p {
                Part::Lit(t) => t.clone(),
                Part::PhaseSlot => String::from_str(phase_s),
                Part::MinutesSlot => String::from_str(minutes_s),
                Part::SecondsSlot => String::from_str(seconds_s),
                Part::RoundSlot => String::from_str(round_s),
            };
            let rest = self.render_from(k + 1, phase_s, minutes_s, seconds_s, round_s);
            let r = head.concat(rest.as_str());
            proof {
                assert(self@.skip(k as int)[0] == self@[k as int]);
                assert(self@.skip(k as int).drop_first() =~= self@.skip(k as int + 1));
            }
            r
        }
    }
}

} // verus!
