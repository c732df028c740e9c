//! The chat envelope: the JSON object that text frames carry.
//!
//! Inbound, an envelope is a JSON object with a string member `name` and a
//! string member `message`. Any other member is ignored, a `uid` included.
//! Outbound, it is written as `{"name":..,"uid":..,"message":..}` in that
//! order, with the sender's identity as `uid`.

use crate::json::json_object;
use crate::json::json_quoted;
use crate::json::members_view;
use crate::json::quote;
use crate::json::read_object;
use crate::json::Member;
use vstd::prelude::*;

verus! {

/// Why a text payload could not be enriched.
#[derive(Clone, Copy, Debug, PartialEq, Eq, Structural)]
pub enum ParseError {
    /// The text is not one JSON object.
    Document,
    /// The object has no member `name` whose value is a string.
    Name,
    /// The object has no member `message` whose value is a string.
    Message,
    /// A field could not be written back as a JSON string.
    Encoding,
}

/// A chat envelope.
#[derive(Clone, Debug, PartialEq, Eq)]
pub struct Envelope {
    /// The display name that the sender chose.
    pub name: String,
    /// The identity of the sending connection, once it has been stamped.
    pub uid: Option<usize>,
    /// The text of the message.
    pub message: String,
}

/// What an [`Envelope`] holds, as mathematical values.
pub struct EnvelopeView {
    pub name: Seq<char>,
    pub uid: Option<usize>,
    pub message: Seq<char>,
}

impl View for Envelope {
    type V = EnvelopeView;

    open spec fn view(&self) -> EnvelopeView {
        EnvelopeView { name: self.name@, uid: self.uid, message: self.message@ }
    }
}

/// The string value of the first member of `members` whose key is `key`;
/// `None` where there is no such member or its value is not a string.
pub open spec fn text_member(
    members: Seq<(Seq<char>, Option<Seq<char>>)>,
    key: Seq<char>,
) -> Option<Seq<char>>
    decreases members.len(),
{
    if members.len() == 0 {
        None
    } else if members[0].0 == key {
        members[0].1
    } else {
        text_member(members.drop_first(), key)
    }
}

/// The envelope that the members of a JSON object make, or the reason why
/// they make none. The `name` is looked at first.
pub open spec fn shaped(members: Seq<(Seq<char>, Option<Seq<char>>)>) -> Result<
    EnvelopeView,
    ParseError,
> {
    match text_member(members, "name"@) {
        None => Err(ParseError::Name),
        Some(name) => match text_member(members, "message"@) {
            None => Err(ParseError::Message),
            Some(message) => Ok(EnvelopeView { name, uid: None, message }),
        },
    }
}

/// The envelope that a text payload holds, or the reason why it holds none.
pub open spec fn envelope_of(text: Seq<char>) -> Result<EnvelopeView, ParseError> {
    match json_object(text) {
        None => Err(ParseError::Document),
        Some(members) => shaped(members),
    }
}

/// `envelope` with `id` as its sender. Name and message stay as they are,
/// and whatever `uid` was there before is replaced.
pub open spec fn stamped(envelope: EnvelopeView, id: usize) -> EnvelopeView {
    EnvelopeView { name: envelope.name, uid: Some(id), message: envelope.message }
}

/// The decimal digit for `d`, which is below ten.
pub open spec fn digit(d: nat) -> char {
    if d == 0 {
        '0'
    } else if d == 1 {
        '1'
    } else if d == 2 {
        '2'
    } else if d == 3 {
        '3'
    } else if d == 4 {
        '4'
    } else if d == 5 {
        '5'
    } else if d == 6 {
        '6'
    } else if d == 7 {
        '7'
    } else if d == 8 {
        '8'
    } else {
        '9'
    }
}

/// `n` in decimal, without sign or leading zeros.
pub open spec fn decimal(n: nat) -> Seq<char>
    decreases n,
{
    if n < 10 {
        seq![digit(n)]
    } else {
        decimal(n / 10).push(digit(n % 10))
    }
}

/// How the `uid` member is written: the identity in decimal, or `null`
/// where there is none.
pub open spec fn uid_text(uid: Option<usize>) -> Seq<char> {
    match uid {
        Some(id) => decimal(id as nat),
        None => "null"@,
    }
}

/// The outbound JSON object, given its three values as they are written.
pub open spec fn framed(name: Seq<char>, uid: Seq<char>, message: Seq<char>) -> Seq<char> {
    "{\"name\":"@ + name + ",\"uid\":"@ + uid + ",\"message\":"@ + message + "}"@
}

/// The JSON text of `envelope`, or `None` where its name or its message
/// cannot be written as a JSON string.
pub open spec fn rendered(envelope: EnvelopeView) -> Option<Seq<char>> {
    match (json_quoted(envelope.name), json_quoted(envelope.message)) {
        (Some(name), Some(message)) => Some(framed(name, uid_text(envelope.uid), message)),
        _ => None,
    }
}

/// The digit `d` as a string of one character.
fn digit_str(d: usize) -> (s: &'static str)
    requires
        d < 10,
    ensures
        s@ == seq![digit(d as nat)],
{
    proof {
        reveal_strlit("0");
        reveal_strlit("1");
        reveal_strlit("2");
        reveal_strlit("3");
        reveal_strlit("4");
        reveal_strlit("5");
        reveal_strlit("6");
        reveal_strlit("7");
        reveal_strlit("8");
        reveal_strlit("9");
    }
    let s = if d == 0 {
        "0"
    } else if d == 1 {
        "1"
    } else if d == 2 {
        "2"
    } else if d == 3 {
        "3"
    } else if d == 4 {
        "4"
    } else if d == 5 {
        "5"
    } else if d == 6 {
        "6"
    } else if d == 7 {
        "7"
    } else if d == 8 {
        "8"
    } else {
        "9"
    };
    assert(s@ =~= seq![digit(d as nat)]);
    s
}

/// Writes `n` in decimal.
pub fn decimal_text(n: usize) -> (text: String)
    ensures
        text@ == decimal(n as nat),
    decreases n,
{
    if n < 10 {
        digit_str(n).to_owned()
    } else {
        let mut text = decimal_text(n / 10);
        text.append(digit_str(n % 10));
        assert(text@ =~= decimal((n / 10) as nat).push(digit((n % 10) as nat)));
        text
    }
}

/// Looks up the string value of the first member with the given key.
pub fn find_text(members: &Vec<Member>, key: &str) -> (found: Option<String>)
    ensures
        match found {
            Some(text) => text_member(members_view(members@), key@) == Some(text@),
            None => text_member(members_view(members@), key@) is None,
        },
{
    let wanted = key.to_owned();
    let ghost all = members_view(members@);
    let mut i: usize = 0;
    assert(all.skip(0) =~= all);
    while i < members.len()
        invariant
            i <= members.len(),
            all == members_view(members@),
            wanted@ == key@,
            text_member(all, key@) == text_member(all.skip(i as int), key@),
        decreases members.len() - i,
    {
        let ghost rest = all.skip(i as int);
        assert(rest[0] == members@[i as int]@);
        assert(rest.drop_first() =~= all.skip(i + 1));
        if members[i].key == wanted {
            return match &members[i].text {
                Some(text) => Some(text.clone()),
                None => None,
            };
        }
        i += 1;
    }
    None
}

impl Envelope {
    /// Builds the envelope from the members of a JSON object.
    ///
    /// Fails with [`ParseError::Name`] where no string `name` is among them,
    /// and with [`ParseError::Message`] where there is a `name` and no string
    /// `message`. A `uid` among the members is not looked at: the envelope
    /// comes out without one.
    pub fn from_members(members: &Vec<Member>) -> (r: Result<Envelope, ParseError>)
        ensures
            match r {
                Ok(envelope) => shaped(members_view(members@)) == Ok::<EnvelopeView, ParseError>(
                    envelope@,
                ),
                Err(e) => shaped(members_view(members@)) == Err::<EnvelopeView, ParseError>(e),
            },
    {
        match find_text(members, "name") {
            None => Err(ParseError::Name),
            Some(name) => match find_text(members, "message") {
                None => Err(ParseError::Message),
                Some(message) => Ok(Envelope { name, uid: None, message }),
            },
        }
    }

    /// Reads the envelope that a text payload holds.
    ///
    /// Fails with [`ParseError::Document`] where `text` is not one JSON
    /// object, and otherwise as [`Envelope::from_members`] does.
    pub fn parse(text: &str) -> (r: Result<Envelope, ParseError>)
        ensures
            match r {
                Ok(envelope) => envelope_of(text@) == Ok::<EnvelopeView, ParseError>(envelope@),
                Err(e) => envelope_of(text@) == Err::<EnvelopeView, ParseError>(e),
            },
    {
        match read_object(text) {
            Err(_) => Err(ParseError::Document),
            Ok(members) => Envelope::from_members(&members),
        }
    }

    /// Sets the sender: `uid` becomes `id`, name and message are untouched.
    pub fn stamp(self, id: usize) -> (out: Envelope)
        ensures
            out@ == stamped(self@, id),
            out.name == self.name,
            out.message == self.message,
    {
        Envelope { name: self.name, uid: Some(id), message: self.message }
    }

    /// Writes the envelope as JSON text.
    ///
    /// Fails with [`ParseError::Encoding`] where the name or the message
    /// cannot be written as a JSON string, and in no other case.
    pub fn to_json(&self) -> (r: Result<String, ParseError>)
        ensures
            match r {
                Ok(text) => rendered(self@) == Some(text@),
                Err(e) => e == ParseError::Encoding && rendered(self@) is None,
            },
    {
        let name = match quote(self.name.as_str()) {
            Ok(name) => name,
            Err(_) => {
                return Err(ParseError::Encoding);
            },
        };
        let message = match quote(self.message.as_str()) {
            Ok(message) => message,
            Err(_) => {
                return Err(ParseError::Encoding);
            },
        };
        Ok(frame(name.as_str(), self.uid, message.as_str()))
    }
}

/// Puts the outbound JSON object together from a name and a message that
/// are already JSON string literals.
pub fn frame(name: &str, uid: Option<usize>, message: &str) -> (text: String)
    ensures
        text@ == framed(name@, uid_text(uid), message@),
{
    let uid = match uid {
        Some(id) => decimal_text(id),
        None => "null".to_owned(),
    };
    let mut text = "{\"name\":".to_owned();
    text.append(name);
    text.append(",\"uid\":");
    text.append(uid.as_str());
    text.append(",\"message\":");
    text.append(message);
    text.append("}");
    text
}

/// Stamping keeps name and message, sets the sender, and forgets any sender
/// that was there before: the last stamp decides.
pub proof fn stamp_sets_sender_only(envelope: EnvelopeView, first: usize, id: usize)
    ensures
        stamped(envelope, id).uid == Some(id),
        stamped(envelope, id).name == envelope.name,
        stamped(envelope, id).message == envelope.message,
        stamped(stamped(envelope, first), id) == stamped(envelope, id),
{
}

} // verus!
