//! The two station events and the URL each one is sent to.
use vstd::prelude::*;
use vstd::string::*;

use crate::text::str_eq;

verus! {

/// A station event: a station joined or left an access point. The field
/// is the station's MAC address.
#[derive(Debug, Copy, Clone, PartialEq, Eq)]
pub enum Action<'a> {
    Join(&'a str),
    Leave(&'a str),
}

/// What an [`Action`] stands for, as mathematical text.
pub ghost enum ActionView {
    Join(Seq<char>),
    Leave(Seq<char>),
}

impl<'a> View for Action<'a> {
    type V = ActionView;

    open spec fn view(&self) -> ActionView {
        match *self {
            Action::Join(m) => ActionView::Join(m@),
            Action::Leave(m) => ActionView::Leave(m@),
        }
    }
}

pub open spec fn join_tag() -> Seq<char> {
    seq!['J', 'O', 'I', 'N']
}

pub open spec fn leave_tag() -> Seq<char> {
    seq!['L', 'E', 'A', 'V', 'E']
}

/// The error of a tag that is neither `JOIN` nor `LEAVE`.
pub open spec fn invalid_action_text() -> Seq<char> {
    "Invalid action"@
}

/// The action that a tag names, if it names one.
pub open spec fn action_of_tag(tag: Seq<char>, mac: Seq<char>) -> Option<ActionView> {
    if tag == join_tag() {
        Some(ActionView::Join(mac))
    } else if tag == leave_tag() {
        Some(ActionView::Leave(mac))
    } else {
        None
    }
}

/// The lower-case verb of the REST path of an action.
pub open spec fn verb_of(a: ActionView) -> Seq<char> {
    match a {
        ActionView::Join(_) => seq!['j', 'o', 'i', 'n'],
        ActionView::Leave(_) => seq!['l', 'e', 'a', 'v', 'e'],
    }
}

pub open spec fn mac_of(a: ActionView) -> Seq<char> {
    match a {
        ActionView::Join(m) => m,
        ActionView::Leave(m) => m,
    }
}

/// `http://{host}/{verb}/{mac}`.
pub open spec fn url_of(a: ActionView, host: Seq<char>) -> Seq<char> {
    seq!['h', 't', 't', 'p', ':', '/', '/'] + host + seq!['/'] + verb_of(a) + seq!['/'] + mac_of(a)
}

impl<'a> Action<'a> {
    /// Builds the action that `s` names; the MAC is taken as it is.
    pub fn from_str(s: &'a str, mac: &'a str) -> (r: Result<Action<'a>, &'static str>)
        ensures
            r is Ok <==> (s@ == join_tag() || s@ == leave_tag()),
            r matches Ok(a) ==> Some(a@) == action_of_tag(s@, mac@),
            r matches Err(e) ==> e@ == invalid_action_text(),
    {
        let join = "JOIN";
        let leave = "LEAVE";
        let invalid = "Invalid action";
        proof {
            reveal_strlit("JOIN");
            reveal_strlit("LEAVE");
            assert(join@ =~= join_tag());
            assert(leave@ =~= leave_tag());
        }
        if str_eq(s, join) {
            Ok(Action::Join(mac))
        } else if str_eq(s, leave) {
            Ok(Action::Leave(mac))
        } else {
            Err(invalid)
        }
    }

    /// The URL of the presence service's endpoint for this action:
    /// `http://{host}/{join|leave}/{mac}`.
    pub fn to_url(self, host: &'a str) -> (r: String)
        ensures
            r@ == url_of(self@, host@),
    {
        let (name, mac) = match self {
            Action::Join(m) => ("join", m),
            Action::Leave(m) => ("leave", m),
        };
        proof {
            reveal_strlit("http://");
            reveal_strlit("/");
            reveal_strlit("join");
            reveal_strlit("leave");
        }
        let mut url = String::from_str("http://");
        url.append(host);
        url.append("/");
        url.append(name);
        url.append("/");
        url.append(mac);
        proof {
            assert(name@ =~= verb_of(self@));
            assert(url@ =~= url_of(self@, host@));
        }
        url
    }
}

} // verus!
