//! The label set that keys the `journeys` gauge family, and how a check-in is
//! projected onto it.

use vstd::prelude::*;

verus! {

/// The ASCII digit for `d`, which lies in `0..10`.
pub open spec fn digit_char(d: int) -> char {
    ((d + 48) as u8) as char
}

/// The shortest decimal form of a natural number.
pub open spec fn nat_digits(n: nat) -> Seq<char>
    decreases n,
{
    if n < 10 {
        seq![digit_char(n as int)]
    } else {
        nat_digits(n / 10).push(digit_char((n % 10) as int))
    }
}

/// The shortest decimal form of an integer, with a leading `-` when negative.
pub open spec fn decimal(n: int) -> Seq<char> {
    if n < 0 {
        seq!['-'].add(nat_digits((-n) as nat))
    } else {
        nat_digits(n as nat)
    }
}

/// Relies on the `Display` impl of `i32` (through `ToString::to_string`):
/// an integer is written in its shortest decimal form, `-` first when negative.
#[verifier::external_body]
fn i32_text(n: i32) -> (r: String)
    ensures
        r@ == decimal(n as int),
{
    n.to_string()
}

/// The label value of an integer field of the feed.
pub fn int_label(n: i32) -> (r: String)
    ensures
        r@ == decimal(n as int),
{
    i32_text(n)
}

} // verus!

verus! {

use crate::feed::Status;

/// Number of labels of the `journeys` gauge family.
pub const LABEL_COUNT: usize = 10;

/// The label values that identify one `journeys` sample. Two check-ins with
/// equal tuples are the same sample and add up.
#[derive(Clone, Debug)]
pub struct LabelTuple {
    pub category: String,
    pub distance: String,
    pub line_name: String,
    pub number: String,
    pub duration: String,
    pub speed: String,
    pub user_id: String,
    pub user_name: String,
    pub origin: String,
    pub destination: String,
}

/// The values of a label tuple, in the order of `label_names`.
pub type LabelKey = Seq<Seq<char>>;

impl View for LabelTuple {
    type V = LabelKey;

    open spec fn view(&self) -> LabelKey {
        seq![
            self.category@,
            self.distance@,
            self.line_name@,
            self.number@,
            self.duration@,
            self.speed@,
            self.user_id@,
            self.user_name@,
            self.origin@,
            self.destination@,
        ]
    }
}

/// The label tuple of a check-in.
pub open spec fn status_key(s: Status) -> LabelKey {
    seq![
        s.train.category@,
        decimal(s.train.distance as int),
        s.train.line_name@,
        s.train.number@,
        decimal(s.train.duration as int),
        s.train.speed@,
        decimal(s.user as int),
        s.username@,
        s.train.origin.name@,
        s.train.destination.name@,
    ]
}

/// The label tuples of a sequence of check-ins, one for each, in order.
pub open spec fn status_keys(ss: Seq<Status>) -> Seq<LabelKey> {
    ss.map_values(|s: Status| status_key(s))
}

impl LabelTuple {
    /// Projects a check-in onto the label set.
    pub fn of_status(s: &Status) -> (r: LabelTuple)
        ensures
            r@ == status_key(*s),
    {
        LabelTuple {
            category: s.train.category.clone(),
            distance: int_label(s.train.distance),
            line_name: s.train.line_name.clone(),
            number: s.train.number.clone(),
            duration: int_label(s.train.duration),
            speed: s.train.speed.clone(),
            user_id: int_label(s.user),
            user_name: s.username.clone(),
            origin: s.train.origin.name.clone(),
            destination: s.train.destination.name.clone(),
        }
    }

    /// A copy of the tuple.
    pub fn duplicate(&self) -> (r: LabelTuple)
        ensures
            r@ == self@,
    {
        LabelTuple {
            category: self.category.clone(),
            distance: self.distance.clone(),
            line_name: self.line_name.clone(),
            number: self.number.clone(),
            duration: self.duration.clone(),
            speed: self.speed.clone(),
            user_id: self.user_id.clone(),
            user_name: self.user_name.clone(),
            origin: self.origin.clone(),
            destination: self.destination.clone(),
        }
    }

    /// Whether two tuples hold the same label values.
    pub fn same_labels(&self, other: &LabelTuple) -> (r: bool)
        ensures
            r == (self@ == other@),
    {
        let r = self.category == other.category && self.distance == other.distance
            && self.line_name == other.line_name && self.number == other.number
            && self.duration == other.duration && self.speed == other.speed
            && self.user_id == other.user_id && self.user_name == other.user_name
            && self.origin == other.origin && self.destination == other.destination;
        proof {
            if !r {
                assert(self@ != other@) by {
                    if self@ == other@ {
                        assert(self@[0] == other@[0]);
                        assert(self@[1] == other@[1]);
                        assert(self@[2] == other@[2]);
                        assert(self@[3] == other@[3]);
                        assert(self@[4] == other@[4]);
                        assert(self@[5] == other@[5]);
                        assert(self@[6] == other@[6]);
                        assert(self@[7] == other@[7]);
                        assert(self@[8] == other@[8]);
                        assert(self@[9] == other@[9]);
                    }
                }
            } else {
                assert(self@ =~= other@);
            }
        }
        r
    }

    /// The label values, in the order of `label_names`.
    pub fn values(&self) -> (r: Vec<String>)
        ensures
            r@.len() == LABEL_COUNT,
            forall|i: int| 0 <= i < LABEL_COUNT ==> #[trigger] r@[i]@ == self@[i],
    {
        let mut r: Vec<String> = Vec::new();
        r.push(self.category.clone());
        r.push(self.distance.clone());
        r.push(self.line_name.clone());
        r.push(self.number.clone());
        r.push(self.duration.clone());
        r.push(self.speed.clone());
        r.push(self.user_id.clone());
        r.push(self.user_name.clone());
        r.push(self.origin.clone());
        r.push(self.destination.clone());
        r
    }
}

/// The label names of the `journeys` gauge family, in the order of the
/// fields of a label tuple.
pub open spec fn spec_label_names() -> Seq<Seq<char>> {
    seq![
        "category"@,
        "distance"@,
        "line_name"@,
        "number"@,
        "duration"@,
        "speed"@,
        "user_id"@,
        "user_name"@,
        "origin"@,
        "destination"@,
    ]
}

/// The label names of the `journeys` gauge family.
pub fn label_names() -> (r: Vec<&'static str>)
    ensures
        r@.len() == LABEL_COUNT,
        r@.map_values(|n: &'static str| n@) == spec_label_names(),
{
    let r = vec![
        "category",
        "distance",
        "line_name",
        "number",
        "duration",
        "speed",
        "user_id",
        "user_name",
        "origin",
        "destination",
    ];
    assert(r@.map_values(|n: &'static str| n@) =~= spec_label_names());
    r
}

} // verus!
