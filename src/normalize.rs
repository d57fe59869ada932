//! Message-list normalization: the wire protocol wants alternating roles, a first
//! message from the user, and no trailing assistant turn.
use vstd::prelude::*;
use crate::wire::{GCPVertexAnthropicMessage, GCPVertexAnthropicMessageContent, GCPVertexAnthropicRole};

verus! {

/// A message as role and content blocks.
pub type MessageView = (GCPVertexAnthropicRole, Seq<GCPVertexAnthropicMessageContent>);

pub open spec fn views(s: Seq<GCPVertexAnthropicMessage>) -> Seq<MessageView> {
    s.map_values(|m: GCPVertexAnthropicMessage| m@)
}

/// Reading left to right, each message joins the one before it when both share a role.
pub open spec fn merge_runs(s: Seq<MessageView>) -> Seq<MessageView>
    decreases s.len(),
{
    if s.len() == 0 {
        seq![]
    } else {
        let prev = merge_runs(s.drop_last());
        let m = s.last();
        if prev.len() > 0 && prev.last().0 == m.0 {
            prev.update(prev.len() - 1, (m.0, prev.last().1 + m.1))
        } else {
            prev.push(m)
        }
    }
}

pub open spec fn with_leading_user(m: Seq<MessageView>, placeholder: MessageView) -> Seq<MessageView> {
    if m.len() > 0 && m[0].0 == GCPVertexAnthropicRole::User {
        m
    } else {
        seq![placeholder] + m
    }
}

pub open spec fn with_trailing_user(m: Seq<MessageView>, placeholder: MessageView) -> Seq<MessageView> {
    if m.len() > 0 && m.last().0 == GCPVertexAnthropicRole::Assistant {
        m.push(placeholder)
    } else {
        m
    }
}

/// Runs merged, then the placeholder put in front and at the end where needed.
pub open spec fn normalize(s: Seq<MessageView>, placeholder: MessageView) -> Seq<MessageView> {
    with_trailing_user(with_leading_user(merge_runs(s), placeholder), placeholder)
}

/// The synthetic user turn that only says the assistant is listening.
pub open spec fn is_listening(m: MessageView) -> bool {
    &&& m.0 == GCPVertexAnthropicRole::User
    &&& m.1.len() == 1
    &&& m.1[0] matches GCPVertexAnthropicMessageContent::Text { text } && text@ == "[listening]"@
}

/// No two neighbours share a role.
pub open spec fn alternating(s: Seq<MessageView>) -> bool {
    forall|i: int| 0 <= i < s.len() - 1 ==> #[trigger] s[i].0 != s[i + 1].0
}

/// All content blocks, in order.
pub open spec fn flatten_content(s: Seq<MessageView>) -> Seq<GCPVertexAnthropicMessageContent>
    decreases s.len(),
{
    if s.len() == 0 {
        seq![]
    } else {
        flatten_content(s.drop_last()) + s.last().1
    }
}

/// The number of maximal runs of neighbours that share a role.
pub open spec fn role_runs(s: Seq<MessageView>) -> nat
    decreases s.len(),
{
    if s.len() == 0 {
        0
    } else if s.len() > 1 && s[s.len() - 2].0 == s.last().0 {
        role_runs(s.drop_last())
    } else {
        role_runs(s.drop_last()) + 1
    }
}

/// The maximal runs of neighbours that share a role, in order.
pub open spec fn group_runs(s: Seq<MessageView>) -> Seq<Seq<MessageView>>
    decreases s.len(),
{
    if s.len() == 0 {
        seq![]
    } else {
        let g = group_runs(s.drop_last());
        let m = s.last();
        if g.len() > 0 && g.last().last().0 == m.0 {
            g.update(g.len() - 1, g.last().push(m))
        } else {
            g.push(seq![m])
        }
    }
}

/// The groups joined back together, in order.
pub open spec fn concat_groups(g: Seq<Seq<MessageView>>) -> Seq<MessageView>
    decreases g.len(),
{
    if g.len() == 0 {
        seq![]
    } else {
        concat_groups(g.drop_last()) + g.last()
    }
}

/// `g` cuts `s` into maximal runs: joined they give `s`, each is a non-empty run of one
/// role, and neighbouring runs differ in role.
pub open spec fn cuts_into_runs(s: Seq<MessageView>, g: Seq<Seq<MessageView>>) -> bool {
    &&& concat_groups(g) == s
    &&& forall|i: int| 0 <= i < g.len() ==> (#[trigger] g[i]).len() > 0
    &&& forall|i: int, j: int| 0 <= i < g.len() && 0 <= j < g[i].len() ==> #[trigger] g[i][j].0 == g[i][0].0
    &&& forall|i: int| 0 <= i < g.len() - 1 ==> #[trigger] g[i][0].0 != g[i + 1][0].0
}

proof fn lemma_groups(s: Seq<MessageView>)
    ensures
        cuts_into_runs(s, group_runs(s)),
        merge_runs(s).len() == group_runs(s).len(),
        forall|i: int|
            0 <= i < merge_runs(s).len() ==> #[trigger] merge_runs(s)[i] == (
                group_runs(s)[i][0].0,
                flatten_content(group_runs(s)[i]),
            ),
    decreases s.len(),
{
    if s.len() == 0 {
        assert(s =~= seq![]);
    } else {
        let p = s.drop_last();
        let m = s.last();
        let gp = group_runs(p);
        let mp = merge_runs(p);
        lemma_groups(p);
        let n = gp.len();
        assert(p.push(m) =~= s);
        if n > 0 {
            assert(gp[n - 1][gp[n - 1].len() - 1].0 == gp[n - 1][0].0);
            assert(mp[n - 1].0 == gp[n - 1][0].0);
        }
        let g = group_runs(s);
        let mm = merge_runs(s);
        if n > 0 && gp.last().last().0 == m.0 {
            let last = gp[n - 1].push(m);
            assert(g == gp.update(n - 1, last));
            assert(g.drop_last() =~= gp.drop_last());
            assert(concat_groups(gp) == concat_groups(gp.drop_last()) + gp[n - 1]);
            assert(concat_groups(g) =~= concat_groups(gp) + seq![m]);
            assert(concat_groups(gp) + seq![m] =~= s);
            assert(concat_groups(g) == s);
            assert(last.drop_last() =~= gp[n - 1]);
            assert(flatten_content(last) == flatten_content(gp[n - 1]) + m.1);
            assert forall|i: int| 0 <= i < g.len() implies (#[trigger] g[i]).len() > 0 by {
                if i < n - 1 {
                    assert(g[i] == gp[i]);
                }
            }
            assert forall|i: int, j: int| 0 <= i < g.len() && 0 <= j < g[i].len() implies #[trigger] g[i][j].0
                == g[i][0].0 by {
                if i < n - 1 {
                    assert(g[i] == gp[i]);
                } else {
                    if j < gp[n - 1].len() {
                        assert(gp[n - 1][j].0 == gp[n - 1][0].0);
                    }
                }
            }
            assert forall|i: int| 0 <= i < g.len() - 1 implies #[trigger] g[i][0].0 != g[i + 1][0].0 by {
                assert(gp[i][0].0 != gp[i + 1][0].0);
            }
            assert forall|i: int| 0 <= i < mm.len() implies #[trigger] mm[i] == (
                g[i][0].0,
                flatten_content(g[i]),
            ) by {
                if i < n - 1 {
                    assert(mp[i] == (gp[i][0].0, flatten_content(gp[i])));
                }
            }
        } else {
            assert(g == gp.push(seq![m]));
            assert(g.drop_last() =~= gp);
            assert(seq![m].drop_last() =~= seq![]);
            assert(concat_groups(g) =~= concat_groups(gp) + seq![m]);
            assert(concat_groups(gp) + seq![m] =~= s);
            assert(concat_groups(g) == s);
            assert(flatten_content(seq![m]) == flatten_content(seq![m].drop_last()) + m.1);
            assert(flatten_content(Seq::<MessageView>::empty()) == Seq::<GCPVertexAnthropicMessageContent>::empty());
            assert(flatten_content(seq![m]) =~= m.1);
            assert forall|i: int| 0 <= i < g.len() implies (#[trigger] g[i]).len() > 0 by {
                if i < n {
                    assert(g[i] == gp[i]);
                }
            }
            assert forall|i: int, j: int| 0 <= i < g.len() && 0 <= j < g[i].len() implies #[trigger] g[i][j].0
                == g[i][0].0 by {
                if i < n {
                    assert(g[i] == gp[i]);
                }
            }
            assert forall|i: int| 0 <= i < g.len() - 1 implies #[trigger] g[i][0].0 != g[i + 1][0].0 by {
                if i < n - 1 {
                    assert(gp[i][0].0 != gp[i + 1][0].0);
                } else {
                    assert(gp[n - 1][gp[n - 1].len() - 1].0 == gp[n - 1][0].0);
                }
            }
            assert forall|i: int| 0 <= i < mm.len() implies #[trigger] mm[i] == (
                g[i][0].0,
                flatten_content(g[i]),
            ) by {
                if i < n {
                    assert(mp[i] == (gp[i][0].0, flatten_content(gp[i])));
                }
            }
        }
    }
}

proof fn lemma_merge_ends(s: Seq<MessageView>)
    ensures
        s.len() == 0 <==> merge_runs(s).len() == 0,
        s.len() > 0 ==> merge_runs(s)[0].0 == s[0].0,
        s.len() > 0 ==> merge_runs(s).last().0 == s.last().0,
    decreases s.len(),
{
    if s.len() > 0 {
        lemma_merge_ends(s.drop_last());
    }
}

proof fn lemma_merge_alternating_identity(s: Seq<MessageView>)
    requires
        alternating(s),
    ensures
        merge_runs(s) == s,
    decreases s.len(),
{
    if s.len() > 0 {
        let p = s.drop_last();
        assert(alternating(p)) by {
            assert forall|i: int| 0 <= i < p.len() - 1 implies #[trigger] p[i].0 != p[i + 1].0 by {
                assert(s[i].0 != s[i + 1].0);
            }
        }
        lemma_merge_alternating_identity(p);
        if p.len() > 0 {
            assert(s[s.len() - 2].0 != s[s.len() - 1].0);
        }
        assert(p.push(s.last()) =~= s);
    }
}

/// A list that already alternates, starts with the user and does not end with the
/// assistant comes out of normalization unchanged.
pub proof fn lemma_normalize_keeps_valid(s: Seq<MessageView>, placeholder: MessageView)
    requires
        alternating(s),
        s.len() > 0,
        s[0].0 == GCPVertexAnthropicRole::User,
        s.last().0 != GCPVertexAnthropicRole::Assistant,
    ensures
        normalize(s, placeholder) == s,
{
    lemma_merge_alternating_identity(s);
}

proof fn lemma_merge_shape(s: Seq<MessageView>)
    ensures
        alternating(merge_runs(s)),
        flatten_content(merge_runs(s)) == flatten_content(s),
        merge_runs(s).len() == role_runs(s),
    decreases s.len(),
{
    if s.len() > 0 {
        let p = s.drop_last();
        let prev = merge_runs(p);
        let m = s.last();
        lemma_merge_shape(p);
        lemma_merge_ends(p);
        if prev.len() > 0 && prev.last().0 == m.0 {
            let merged = prev.update(prev.len() - 1, (m.0, prev.last().1 + m.1));
            assert(merged.drop_last() =~= prev.drop_last());
            assert(prev.drop_last().push(prev.last()) =~= prev);
            assert(flatten_content(prev) == flatten_content(prev.drop_last()) + prev.last().1);
            assert(flatten_content(merged) == flatten_content(prev.drop_last()) + (prev.last().1 + m.1));
            assert(flatten_content(merged) =~= flatten_content(prev) + m.1);
            assert(alternating(merged)) by {
                assert forall|i: int| 0 <= i < merged.len() - 1 implies #[trigger] merged[i].0
                    != merged[i + 1].0 by {
                    assert(prev[i].0 != prev[i + 1].0);
                }
            }
            assert(s[s.len() - 2] == p.last());
        } else {
            let pushed = prev.push(m);
            assert(pushed.drop_last() =~= prev);
            assert(alternating(pushed)) by {
                assert forall|i: int| 0 <= i < pushed.len() - 1 implies #[trigger] pushed[i].0
                    != pushed[i + 1].0 by {
                    if i < prev.len() - 1 {
                        assert(prev[i].0 != prev[i + 1].0);
                    }
                }
            }
            if s.len() > 1 {
                assert(s[s.len() - 2] == p.last());
            }
        }
    }
}

/// Merging joins each maximal same-role run into one message: the i-th merged message
/// has the role of the i-th run and the contents of its messages joined in order.
/// Neighbours then differ in role, every content block keeps its place in the order
/// given, and there is one message per run.
pub proof fn lemma_merge_runs_correct(s: Seq<MessageView>)
    ensures
        cuts_into_runs(s, group_runs(s)),
        merge_runs(s).len() == group_runs(s).len(),
        forall|i: int|
            0 <= i < merge_runs(s).len() ==> #[trigger] merge_runs(s)[i] == (
                group_runs(s)[i][0].0,
                flatten_content(group_runs(s)[i]),
            ),
        alternating(merge_runs(s)),
        flatten_content(merge_runs(s)) == flatten_content(s),
        merge_runs(s).len() == role_runs(s),
{
    lemma_groups(s);
    lemma_merge_shape(s);
}

/// An empty list becomes the placeholder alone; a list that ends with the assistant gets
/// exactly one placeholder appended; one that starts with the assistant gets exactly one
/// placeholder in front.
pub proof fn lemma_placeholders(s: Seq<MessageView>, placeholder: MessageView)
    requires
        placeholder.0 == GCPVertexAnthropicRole::User,
    ensures
        s.len() == 0 ==> normalize(s, placeholder) == seq![placeholder],
        s.len() > 0 && s.last().0 == GCPVertexAnthropicRole::Assistant ==> {
            &&& normalize(s, placeholder) == with_leading_user(merge_runs(s), placeholder).push(placeholder)
            &&& merge_runs(s).last().0 == GCPVertexAnthropicRole::Assistant
        },
        s.len() > 0 && s[0].0 == GCPVertexAnthropicRole::Assistant ==> {
            &&& normalize(s, placeholder) == with_trailing_user(seq![placeholder] + merge_runs(s), placeholder)
            &&& merge_runs(s)[0].0 == GCPVertexAnthropicRole::Assistant
            &&& normalize(s, placeholder)[0] == placeholder
            &&& normalize(s, placeholder)[1] == (
                GCPVertexAnthropicRole::Assistant,
                flatten_content(group_runs(s)[0]),
            )
            &&& normalize(s, placeholder).len() == role_runs(s) + 1 + if s.last().0
                == GCPVertexAnthropicRole::Assistant {
                1nat
            } else {
                0nat
            }
        },
{
    lemma_merge_ends(s);
    lemma_merge_runs_correct(s);
    let m = merge_runs(s);
    if s.len() == 0 {
        assert(seq![placeholder] + m =~= seq![placeholder]);
    }
    if s.len() > 0 && s.last().0 == GCPVertexAnthropicRole::Assistant {
        let h = with_leading_user(m, placeholder);
        assert(h.last() == m.last());
    }
}

/// `out` is `input` normalized, with the listening turn as placeholder.
pub open spec fn normalized_from(input: Seq<GCPVertexAnthropicMessage>, out: Seq<GCPVertexAnthropicMessage>) -> bool {
    exists|ph: MessageView| is_listening(ph) && #[trigger] normalize(views(input), ph) == views(out)
}

/// The placeholder turn.
fn listening_message(text: String) -> (r: GCPVertexAnthropicMessage)
    ensures
        r@.0 == GCPVertexAnthropicRole::User,
        r@.1 == seq![GCPVertexAnthropicMessageContent::Text { text }],
{
    let mut content: Vec<GCPVertexAnthropicMessageContent> = Vec::new();
    content.push(GCPVertexAnthropicMessageContent::Text { text });
    GCPVertexAnthropicMessage { role: GCPVertexAnthropicRole::User, content }
}

/// Merges consecutive same-role messages, then puts a placeholder user turn in front
/// when the list is empty or starts with the assistant, and at the end when it ends
/// with the assistant.
pub fn prepare_messages(messages: Vec<GCPVertexAnthropicMessage>) -> (r: Result<
    Vec<GCPVertexAnthropicMessage>,
    crate::error::Error,
>)
    ensures
        r matches Ok(out) && normalized_from(messages@, out@),
{
    let ghost input = views(messages@);
    let mut rest = messages;
    let mut out: Vec<GCPVertexAnthropicMessage> = Vec::new();
    let ghost mut k: int = 0;
    while rest.len() > 0
        invariant
            0 <= k <= input.len(),
            views(rest@) == input.skip(k),
            views(out@) == merge_runs(input.take(k)),
        decreases rest@.len(),
    {
        let ghost before = views(rest@);
        let mut message = rest.remove(0);
        let ghost mv = message@;
        proof {
            assert(before[0] == message@);
            assert(views(rest@) =~= before.skip(1));
            assert(input.take(k + 1).drop_last() =~= input.take(k));
            assert(input.take(k + 1).last() == input[k]);
            assert(input[k] == before[0]);
            lemma_merge_ends(input.take(k));
        }
        let n = out.len();
        if n > 0 && out[n - 1].role == message.role {
            let mut last = out.pop().unwrap();
            let ghost last_before = last@;
            last.content.append(&mut message.content);
            out.push(last);
            proof {
                assert(views(out@) =~= merge_runs(input.take(k)).update(n - 1, (last_before.0, last_before.1 + mv.1)));
            }
        } else {
            out.push(message);
            proof {
                assert(views(out@) =~= merge_runs(input.take(k)).push(message@));
            }
        }
        proof {
            k = k + 1;
        }
    }
    proof {
        assert(input.take(k) =~= input);
    }
    let text = "[listening]".to_owned();
    let head_text = text.clone();
    let ghost ph: MessageView = (
        GCPVertexAnthropicRole::User,
        seq![GCPVertexAnthropicMessageContent::Text { text }],
    );
    let ghost merged = views(out@);
    let starts_with_user = out.len() > 0 && out[0].role == GCPVertexAnthropicRole::User;
    if !starts_with_user {
        out.insert(0, listening_message(head_text));
        proof {
            assert(views(out@) =~= seq![ph] + merged);
        }
    }
    let ghost led = views(out@);
    assert(led == with_leading_user(merged, ph));
    let n = out.len();
    if out[n - 1].role == GCPVertexAnthropicRole::Assistant {
        out.push(listening_message(text));
        proof {
            assert(views(out@) =~= led.push(ph));
        }
    }
    assert(is_listening(ph));
    assert(normalize(input, ph) == views(out@));
    Ok(out)
}

} // verus!
