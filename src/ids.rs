use vstd::prelude::*;
use vstd::std_specs::iter::IteratorSpec;

use crate::text::append_str;

verus! {

broadcast use vstd::string::axiom_spec_iter, vstd::string::next_postcondition;

/// An account: a label within an audience (`label.audience`).
pub struct AccountId {
    pub label: String,
    pub audience: String,
}

/// An agent: one connection of an account (`label.account_label.audience`).
pub struct AgentId {
    pub label: String,
    pub account_id: AccountId,
}

pub ghost struct AccountIdView {
    pub label: Seq<char>,
    pub audience: Seq<char>,
}

pub ghost struct AgentIdView {
    pub label: Seq<char>,
    pub account_id: AccountIdView,
}

impl View for AccountId {
    type V = AccountIdView;

    open spec fn view(&self) -> AccountIdView {
        AccountIdView { label: self.label@, audience: self.audience@ }
    }
}

impl View for AgentId {
    type V = AgentIdView;

    open spec fn view(&self) -> AgentIdView {
        AgentIdView { label: self.label@, account_id: self.account_id@ }
    }
}

/// The text form of an account: `label.audience`.
pub open spec fn account_text(a: AccountIdView) -> Seq<char> {
    a.label + seq!['.'] + a.audience
}

/// The text form of an agent: `label.account_label.audience`.
pub open spec fn agent_text(a: AgentIdView) -> Seq<char> {
    a.label + seq!['.'] + account_text(a.account_id)
}

/// Whether `t` holds no '.'.
pub open spec fn dotless(t: Seq<char>) -> bool {
    forall|i: int| 0 <= i < t.len() ==> #[trigger] t[i] != '.'
}

/// `t` split at its first '.': what comes before it and what comes after.
pub open spec fn split_dot(t: Seq<char>) -> Option<(Seq<char>, Seq<char>)>
    decreases t.len(),
{
    if t.len() == 0 {
        None
    } else if t[0] == '.' {
        Some((Seq::empty(), t.drop_first()))
    } else {
        match split_dot(t.drop_first()) {
            Some((before, after)) => Some((seq![t[0]] + before, after)),
            None => None,
        }
    }
}

/// The agent id that a text form names: the label runs to the first '.',
/// the account label to the next one, and the audience is the rest.
pub open spec fn agent_of_text(t: Seq<char>) -> Option<AgentIdView> {
    match split_dot(t) {
        None => None,
        Some((label, rest)) => match split_dot(rest) {
            None => None,
            Some((account_label, audience)) => Some(
                AgentIdView {
                    label,
                    account_id: AccountIdView { label: account_label, audience },
                },
            ),
        },
    }
}

pub proof fn lemma_split_dot(x: Seq<char>, y: Seq<char>)
    requires
        dotless(x),
    ensures
        split_dot(x + seq!['.'] + y) == Some((x, y)),
    decreases x.len(),
{
    let t = x + seq!['.'] + y;
    if x.len() == 0 {
        assert(t[0] == '.');
        assert(t.drop_first() =~= y);
    } else {
        assert(t.drop_first() =~= x.drop_first() + seq!['.'] + y);
        lemma_split_dot(x.drop_first(), y);
        assert(seq![x[0]] + x.drop_first() =~= x);
    }
}

pub proof fn lemma_split_dotless(x: Seq<char>)
    requires
        dotless(x),
    ensures
        split_dot(x) is None,
    decreases x.len(),
{
    if x.len() > 0 {
        lemma_split_dotless(x.drop_first());
    }
}

/// Reading the text form of an agent id gives back the agent id, where its
/// label and its account label hold no '.'.
pub proof fn lemma_agent_text_round_trip(a: AgentIdView)
    requires
        dotless(a.label),
        dotless(a.account_id.label),
    ensures
        agent_of_text(agent_text(a)) == Some(a),
{
    let acc = account_text(a.account_id);
    assert(agent_text(a) =~= a.label + seq!['.'] + acc);
    lemma_split_dot(a.label, acc);
    lemma_split_dot(a.account_id.label, a.account_id.audience);
}

impl AccountId {
    pub fn new(label: &str, audience: &str) -> (r: AccountId)
        ensures
            r@ == (AccountIdView { label: label@, audience: audience@ }),
    {
        AccountId { label: label.to_owned(), audience: audience.to_owned() }
    }

    pub fn label(&self) -> (r: &str)
        ensures
            r@ == self.label@,
    {
        self.label.as_str()
    }

    pub fn audience(&self) -> (r: &str)
        ensures
            r@ == self.audience@,
    {
        self.audience.as_str()
    }

    pub fn duplicate(&self) -> (r: AccountId)
        ensures
            r@ == self@,
    {
        AccountId { label: self.label.clone(), audience: self.audience.clone() }
    }

    /// Appends the text form of the account to `out`.
    pub fn write_to(&self, out: &mut String)
        ensures
            final(out)@ == old(out)@ + account_text(self@),
    {
        append_str(out, self.label.as_str());
        append_str(out, ".");
        append_str(out, self.audience.as_str());
        proof {
            reveal_strlit(".");
        }
        assert(final(out)@ =~= old(out)@ + account_text(self@));
    }

    /// The text form of the account, `label.audience`.
    pub fn to_text(&self) -> (r: String)
        ensures
            r@ == account_text(self@),
    {
        let mut out = String::new();
        self.write_to(&mut out);
        assert(out@ =~= account_text(self@));
        out
    }

    /// Whether two accounts are the same.
    pub fn same_as(&self, other: &AccountId) -> (r: bool)
        ensures
            r == (self@ == other@),
    {
        self.label == other.label && self.audience == other.audience
    }
}

impl AgentId {
    pub fn new(label: &str, account_id: AccountId) -> (r: AgentId)
        ensures
            r@ == (AgentIdView { label: label@, account_id: account_id@ }),
    {
        AgentId { label: label.to_owned(), account_id }
    }

    pub fn label(&self) -> (r: &str)
        ensures
            r@ == self.label@,
    {
        self.label.as_str()
    }

    pub fn as_account_id(&self) -> (r: &AccountId)
        ensures
            r@ == self.account_id@,
    {
        &self.account_id
    }

    pub fn duplicate(&self) -> (r: AgentId)
        ensures
            r@ == self@,
    {
        AgentId { label: self.label.clone(), account_id: self.account_id.duplicate() }
    }

    /// Reads an agent id from its text form, `label.account_label.audience`.
    pub fn parse(text: &str) -> (r: Option<AgentId>)
        ensures
            match agent_of_text(text@) {
                Some(a) => r matches Some(id) && id@ == a,
                None => r is None,
            },
    {
        let ghost t = text@;
        let mut it = text.chars();
        let mut label = String::new();
        let mut account_label = String::new();
        let mut audience = String::new();
        let mut stage: u8 = 0;
        let ghost mut k: int = 0;
        loop
            invariant
                t == text@,
                it.remaining() == t.skip(k),
                0 <= k <= t.len(),
                stage <= 2,
                dotless(label@),
                stage == 0 ==> t.take(k) == label@ && account_label@.len() == 0
                    && audience@.len() == 0,
                stage >= 1 ==> dotless(account_label@),
                stage == 1 ==> t.take(k) == label@ + seq!['.'] + account_label@
                    && audience@.len() == 0,
                stage == 2 ==> t.take(k) == label@ + seq!['.'] + account_label@ + seq!['.']
                    + audience@,
            ensures
                k == t.len(),
                0 <= stage <= 2,
                dotless(label@),
                stage == 0 ==> t.take(k) == label@,
                stage >= 1 ==> dotless(account_label@),
                stage == 1 ==> t.take(k) == label@ + seq!['.'] + account_label@,
                stage == 2 ==> t.take(k) == label@ + seq!['.'] + account_label@ + seq!['.']
                    + audience@,
            decreases t.len() - k,
        {
            match it.next() {
                Some(c) => {
                    assert(t.take(k + 1) == t.take(k).push(c));
                    if stage == 0 {
                        if c == '.' {
                            stage = 1;
                        } else {
                            label.push(c);
                        }
                    } else if stage == 1 {
                        if c == '.' {
                            stage = 2;
                        } else {
                            account_label.push(c);
                        }
                    } else {
                        audience.push(c);
                    }
                    proof {
                        k = k + 1;
                    }
                },
                None => {
                    break;
                },
            }
        }
        assert(t.take(k) =~= t);
        if stage == 2 {
            proof {
                lemma_split_dot(label@, account_label@ + seq!['.'] + audience@);
                lemma_split_dot(account_label@, audience@);
                assert(t =~= label@ + seq!['.'] + (account_label@ + seq!['.'] + audience@));
            }
            Some(AgentId { label, account_id: AccountId { label: account_label, audience } })
        } else {
            proof {
                if stage == 0 {
                    lemma_split_dotless(t);
                } else {
                    lemma_split_dot(label@, account_label@);
                    lemma_split_dotless(account_label@);
                }
            }
            None
        }
    }

    /// Appends the text form of the agent to `out`.
    pub fn write_to(&self, out: &mut String)
        ensures
            final(out)@ == old(out)@ + agent_text(self@),
    {
        append_str(out, self.label.as_str());
        append_str(out, ".");
        self.account_id.write_to(out);
        proof {
            reveal_strlit(".");
        }
        assert(final(out)@ =~= old(out)@ + agent_text(self@));
    }

    /// The text form of the agent, `label.account_label.audience`.
    pub fn to_text(&self) -> (r: String)
        ensures
            r@ == agent_text(self@),
    {
        let mut out = String::new();
        self.write_to(&mut out);
        assert(out@ =~= agent_text(self@));
        out
    }

    /// Whether two agents are the same.
    pub fn same_as(&self, other: &AgentId) -> (r: bool)
        ensures
            r == (self@ == other@),
    {
        self.label == other.label && self.account_id.same_as(&other.account_id)
    }
}

} // verus!
