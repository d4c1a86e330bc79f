//! Data model: voters and the persisted poll record.

use vstd::prelude::*;
use vstd::string::StringExecFns;

verus! {

/// One affirmative participant in a poll's vote.
///
/// Equality and deduplication go solely by `user_id`; `display_name` is a
/// best-effort human-readable label captured at the moment the vote was
/// recorded and never refreshed afterwards.
#[derive(Clone, Debug)]
pub struct Voter {
    pub user_id: u64,
    pub display_name: String,
}

impl Voter {
    /// A field-for-field copy of this voter.
    pub fn duplicate(&self) -> (r: Voter)
        ensures
            r == *self,
    {
        Voter { user_id: self.user_id, display_name: self.display_name.clone() }
    }
}

impl PartialEq for Voter {
    fn eq(&self, other: &Voter) -> (r: bool) {
        self.user_id == other.user_id
    }
}

impl Eq for Voter {

}

impl vstd::std_specs::cmp::PartialEqSpecImpl for Voter {
    open spec fn obeys_eq_spec() -> bool {
        true
    }

    open spec fn eq_spec(&self, other: &Voter) -> bool {
        self.user_id == other.user_id
    }
}

/// The plain identity facts about a platform user from which a [`Voter`] is
/// built: the stable numeric id, and the name parts used for the label.
pub struct UserInfo {
    pub id: u64,
    pub username: Option<String>,
    pub first_name: String,
    pub last_name: Option<String>,
}

/// The label recorded for a user: the mention form (`@username`) if a
/// username is set, otherwise the full name (first name, then the last name
/// after a space when one is present).
pub open spec fn display_name_of(u: UserInfo) -> Seq<char> {
    match u.username {
        Option::Some(name) => "@"@ + name@,
        Option::None => match u.last_name {
            Option::Some(last) => u.first_name@ + " "@ + last@,
            Option::None => u.first_name@,
        },
    }
}

impl UserInfo {
    /// Builds the voter entry for this user, resolving the display name at
    /// this moment.
    pub fn to_voter(&self) -> (r: Voter)
        ensures
            r.user_id == self.id,
            r.display_name@ == display_name_of(*self),
    {
        let display_name = match &self.username {
            Option::Some(name) => {
                let mut s = String::from_str("@");
                s.append(name.as_str());
                s
            },
            Option::None => match &self.last_name {
                Option::Some(last) => {
                    let mut s = self.first_name.clone();
                    s.append(" ");
                    s.append(last.as_str());
                    s
                },
                Option::None => self.first_name.clone(),
            },
        };
        Voter { user_id: self.id, display_name }
    }
}

/// The persisted record of one open lunch vote.
///
/// `id` is the storage identifier assigned by the repository on creation;
/// `chat_id` keys the record (at most one poll may exist per chat);
/// `poll_id` is the identifier the messaging platform assigned to the live
/// poll object, used to correlate inbound answer events; `poll_msg_id`
/// identifies the message carrying the poll, used to request its closure.
#[derive(Clone, Debug)]
pub struct LunchPoll {
    pub id: i64,
    pub chat_id: i64,
    pub poll_id: String,
    pub poll_msg_id: i32,
    pub yes_voters: Vec<Voter>,
}

/// No two entries of `vs` share a `user_id`.
pub open spec fn voters_unique(vs: Seq<Voter>) -> bool {
    forall|i: int, j: int| 0 <= i < j < vs.len() ==> vs[i].user_id != vs[j].user_id
}

/// Two poll records hold the same data, field for field.
pub open spec fn same_poll(a: LunchPoll, b: LunchPoll) -> bool {
    &&& a.id == b.id
    &&& a.chat_id == b.chat_id
    &&& a.poll_id@ == b.poll_id@
    &&& a.poll_msg_id == b.poll_msg_id
    &&& a.yes_voters@ == b.yes_voters@
}

/// An element-for-element copy of a voter list.
pub fn clone_voters(voters: &Vec<Voter>) -> (r: Vec<Voter>)
    ensures
        r@ == voters@,
{
    let mut copy: Vec<Voter> = Vec::new();
    let mut i: usize = 0;
    while i < voters.len()
        invariant
            i <= voters.len(),
            copy@ =~= voters@.subrange(0, i as int),
        decreases voters.len() - i,
    {
        copy.push(voters[i].duplicate());
        i = i + 1;
    }
    proof {
        assert(copy@ =~= voters@);
    }
    copy
}

impl LunchPoll {
    /// The voter ledger is well-formed: no duplicate voter identities.
    pub open spec fn wf(self) -> bool {
        voters_unique(self.yes_voters@)
    }

    /// A field-for-field copy of this poll record.
    pub fn duplicate(&self) -> (r: LunchPoll)
        ensures
            same_poll(r, *self),
    {
        LunchPoll {
            id: self.id,
            chat_id: self.chat_id,
            poll_id: self.poll_id.clone(),
            poll_msg_id: self.poll_msg_id,
            yes_voters: clone_voters(&self.yes_voters),
        }
    }
}

} // verus!
