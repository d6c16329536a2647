//! The user record and the text reported for it.
use vstd::prelude::*;
use vstd::string::StringExecFns;
use crate::decimal::{decimal, decimal_text};

verus! {

/// One user record of a payload. `address` is optional; the other fields are
/// required.
pub struct User {
    pub id: i32,
    pub name: String,
    pub username: String,
    pub email: String,
    pub address: Option<String>,
}

/// What stands in the report for an absent address.
pub open spec fn no_address() -> Seq<char> {
    "<none>"@
}

/// The header line that comes before each record's detail line.
pub open spec fn header() -> Seq<char> {
    "=> Found user\n    "@
}

impl User {
    /// The address as reported: the address itself, or `<none>`.
    pub open spec fn shown_address(self) -> Seq<char> {
        match self.address {
            Some(a) => a@,
            None => no_address(),
        }
    }

    /// The detail line:
    /// `(id=<id>, name=<name>, username=<username>, email=<email>, address=<address>)`.
    pub open spec fn text(self) -> Seq<char> {
        "(id="@ + decimal(self.id as int)
            + ", name="@ + self.name@
            + ", username="@ + self.username@
            + ", email="@ + self.email@
            + ", address="@ + self.shown_address()
            + ")"@
    }

    /// The block reported for the record: the header, then the detail line.
    pub open spec fn block(self) -> Seq<char> {
        header() + self.text()
    }

    /// The detail line of the record.
    pub fn to_text(&self) -> (r: String)
        ensures
            r@ == self.text(),
    {
        let mut s = String::from_str("(id=");
        let id = decimal_text(self.id);
        s.append(id.as_str());
        s.append(", name=");
        s.append(self.name.as_str());
        s.append(", username=");
        s.append(self.username.as_str());
        s.append(", email=");
        s.append(self.email.as_str());
        s.append(", address=");
        match &self.address {
            Some(a) => s.append(a.as_str()),
            None => s.append("<none>"),
        }
        s.append(")");
        s
    }

    /// The block reported for the record.
    pub fn to_block(&self) -> (r: String)
        ensures
            r@ == self.block(),
    {
        let text = self.to_text();
        String::from_str("=> Found user\n    ").concat(text.as_str())
    }
}

/// A record without an address is reported with `<none>` as its address:
/// its block ends in `<none>)`.
pub proof fn absent_address_reported_as_none(u: User)
    requires
        u.address is None,
    ensures
        u.block().subrange(u.block().len() - 7, u.block().len() as int) == "<none>)"@,
{
    reveal_strlit("<none>");
    reveal_strlit(")");
    reveal_strlit("<none>)");
    assert(u.block().subrange(u.block().len() - 7, u.block().len() as int) =~= "<none>)"@);
}

/// The blocks reported for a batch: one per record, in the batch's order.
pub fn report_blocks(users: &Vec<User>) -> (r: Vec<String>)
    ensures
        r@.len() == users@.len(),
        forall|i: int| 0 <= i < users@.len() ==> (#[trigger] r@[i])@ == users@[i].block(),
{
    let mut out: Vec<String> = Vec::new();
    let mut k: usize = 0;
    while k < users.len()
        invariant
            k <= users@.len(),
            out@.len() == k,
            forall|i: int| 0 <= i < k ==> (#[trigger] out@[i])@ == users@[i].block(),
        decreases users@.len() - k,
    {
        out.push(users[k].to_block());
        k = k + 1;
    }
    out
}

} // verus!
