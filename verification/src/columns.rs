//! The column model: the fixed set of displayable columns, each with a
//! header label, a width policy, a value-extraction rule, a
//! color-classification rule, and a comparison rule.
//!
//! Value extraction tolerates absent optional fields by substituting the
//! empty string. The comparison rule is a total order for every column, and
//! comparing two entities either way round gives inverse answers (see
//! [`lemma_column_cmp_consistent`]).

use vstd::prelude::*;
use crate::entity::{Instance, InstanceV, find_tag, name_of, opt_str_view, clone_opt_string};

verus! {

/// The ordered set of displayable columns.
#[derive(Copy, Clone, PartialEq, Eq, Hash, Structural)]
pub enum BasicColumn {
    InstanceID,
    Name,
    Architecture,
    VpcID,
    Type,
    Key,
    State,
    PublicIp,
    PrivateIp,
}

/// Display emphasis class of one cell, independent of sort and search state.
#[derive(Copy, Clone, PartialEq, Eq, Debug, Structural)]
pub enum ColorClass {
    /// The name column's standing emphasis.
    Highlight,
    /// A running entity's state cell.
    Normal,
    /// A non-running entity's state cell.
    Alert,
    /// Every other cell.
    Primary,
}

/// Outcome of comparing two entities under a column's comparison rule.
#[derive(Copy, Clone, PartialEq, Eq, Debug, Structural)]
pub enum CmpResult {
    Less,
    Equal,
    Greater,
}

/// The inverse outcome: what the comparison gives with its sides swapped.
pub open spec fn flip(r: CmpResult) -> CmpResult {
    match r {
        CmpResult::Less => CmpResult::Greater,
        CmpResult::Equal => CmpResult::Equal,
        CmpResult::Greater => CmpResult::Less,
    }
}

/// Header label of a column.
pub open spec fn header_label(c: BasicColumn) -> Seq<char> {
    match c {
        BasicColumn::InstanceID => "instance-id"@,
        BasicColumn::Name => "name"@,
        BasicColumn::Architecture => "arch"@,
        BasicColumn::VpcID => "vpc-id"@,
        BasicColumn::Type => "type"@,
        BasicColumn::Key => "key"@,
        BasicColumn::State => "state"@,
        BasicColumn::PublicIp => "public-ip"@,
        BasicColumn::PrivateIp => "private-ip"@,
    }
}

/// Width of a column: fixed cells, or a proportional share of the total
/// width `w`.
pub open spec fn header_size_spec(c: BasicColumn, w: int) -> int {
    match c {
        BasicColumn::InstanceID => 19,
        BasicColumn::Name => (40 * w) / 160,
        BasicColumn::Architecture => 8,
        BasicColumn::VpcID => 22,
        BasicColumn::Type => 12,
        BasicColumn::Key => (20 * w) / 160,
        BasicColumn::State => 10,
        BasicColumn::PublicIp => 15,
        BasicColumn::PrivateIp => 15,
    }
}

/// The contents of an optional field, with the empty string for an absent
/// one.
pub open spec fn opt_or_empty(o: Option<Seq<char>>) -> Seq<char> {
    match o {
        Some(s) => s,
        None => Seq::<char>::empty(),
    }
}

/// The display text of an entity's cell in a column.
pub open spec fn column_value(e: InstanceV, c: BasicColumn) -> Seq<char> {
    match c {
        BasicColumn::InstanceID => e.instance_id,
        BasicColumn::Name => opt_or_empty(name_of(e)),
        BasicColumn::Architecture => opt_or_empty(e.architecture),
        BasicColumn::VpcID => opt_or_empty(e.vpc_id),
        BasicColumn::Type => opt_or_empty(e.instance_type),
        BasicColumn::Key => opt_or_empty(e.key_name),
        BasicColumn::State => opt_or_empty(e.state_name),
        BasicColumn::PublicIp => opt_or_empty(e.public_ip_address),
        BasicColumn::PrivateIp => opt_or_empty(e.private_ip_address),
    }
}

/// The emphasis class of an entity's cell in a column: the name column is
/// highlighted, the state column marks any entity whose state code is not
/// the running code `16`, and every other cell is plain.
pub open spec fn column_color(e: InstanceV, c: BasicColumn) -> ColorClass {
    match c {
        BasicColumn::Name => ColorClass::Highlight,
        BasicColumn::State => if e.state_code == Some(16i64) {
            ColorClass::Normal
        } else {
            ColorClass::Alert
        },
        _ => ColorClass::Primary,
    }
}

/// Lexicographic comparison of `a` and `b` by code point, from position `i`
/// on; a proper prefix orders first.
pub open spec fn lex_cmp_from(a: Seq<char>, b: Seq<char>, i: int) -> CmpResult
    decreases a.len() - i,
{
    if i < 0 {
        CmpResult::Equal
    } else if i >= a.len() && i >= b.len() {
        CmpResult::Equal
    } else if i >= a.len() {
        CmpResult::Less
    } else if i >= b.len() {
        CmpResult::Greater
    } else if (a[i] as int) < (b[i] as int) {
        CmpResult::Less
    } else if (a[i] as int) > (b[i] as int) {
        CmpResult::Greater
    } else {
        lex_cmp_from(a, b, i + 1)
    }
}

/// Lexicographic comparison of two character sequences.
pub open spec fn lex_cmp(a: Seq<char>, b: Seq<char>) -> CmpResult {
    lex_cmp_from(a, b, 0)
}

/// Comparison of optional strings: an absent value orders before any
/// present one.
pub open spec fn opt_lex_cmp(a: Option<Seq<char>>, b: Option<Seq<char>>) -> CmpResult {
    match (a, b) {
        (None, None) => CmpResult::Equal,
        (None, Some(_)) => CmpResult::Less,
        (Some(_), None) => CmpResult::Greater,
        (Some(x), Some(y)) => lex_cmp(x, y),
    }
}

/// The comparison rule of a column: the id and name columns order by the
/// canonical id; every other column orders by the architecture field.
pub open spec fn column_cmp(a: InstanceV, b: InstanceV, c: BasicColumn) -> CmpResult {
    match c {
        BasicColumn::InstanceID => lex_cmp(a.instance_id, b.instance_id),
        BasicColumn::Name => lex_cmp(a.instance_id, b.instance_id),
        _ => opt_lex_cmp(a.architecture, b.architecture),
    }
}

proof fn lemma_lex_cmp_antisym(a: Seq<char>, b: Seq<char>, i: int)
    ensures
        lex_cmp_from(b, a, i) == flip(lex_cmp_from(a, b, i)),
    decreases a.len() - i,
{
    if 0 <= i && i < a.len() && i < b.len() && a[i] as int == b[i] as int {
        lemma_lex_cmp_antisym(a, b, i + 1);
    }
}

proof fn lemma_lex_cmp_refl(a: Seq<char>, i: int)
    ensures
        lex_cmp_from(a, a, i) == CmpResult::Equal,
    decreases a.len() - i,
{
    if 0 <= i && i < a.len() {
        lemma_lex_cmp_refl(a, i + 1);
    }
}

/// The comparison rule is consistent: comparing the two entities either way
/// round gives inverse outcomes, and an entity compares equal to itself, in
/// every column.
pub proof fn lemma_column_cmp_consistent(a: InstanceV, b: InstanceV, c: BasicColumn)
    ensures
        column_cmp(b, a, c) == flip(column_cmp(a, b, c)),
        column_cmp(a, a, c) == CmpResult::Equal,
{
    lemma_lex_cmp_antisym(a.instance_id, b.instance_id, 0);
    lemma_lex_cmp_refl(a.instance_id, 0);
    match (a.architecture, b.architecture) {
        (Some(x), Some(y)) => {
            lemma_lex_cmp_antisym(x, y, 0);
        },
        _ => {},
    }
    match a.architecture {
        Some(x) => {
            lemma_lex_cmp_refl(x, 0);
        },
        None => {},
    }
}

impl BasicColumn {
    /// Header label of the column.
    pub fn to_header(&self) -> (r: String)
        ensures
            r@ == header_label(*self),
    {
        match self {
            BasicColumn::InstanceID => "instance-id".to_owned(),
            BasicColumn::Name => "name".to_owned(),
            BasicColumn::Architecture => "arch".to_owned(),
            BasicColumn::VpcID => "vpc-id".to_owned(),
            BasicColumn::Type => "type".to_owned(),
            BasicColumn::Key => "key".to_owned(),
            BasicColumn::State => "state".to_owned(),
            BasicColumn::PublicIp => "public-ip".to_owned(),
            BasicColumn::PrivateIp => "private-ip".to_owned(),
        }
    }

    /// Width of the column in cells, for a total table width of `w`.
    pub fn to_header_size(&self, w: usize) -> (r: usize)
        requires
            40 * w <= usize::MAX,
        ensures
            r == header_size_spec(*self, w as int),
    {
        match self {
            BasicColumn::InstanceID => 19,
            BasicColumn::Name => (40 * w) / 160,
            BasicColumn::Architecture => 8,
            BasicColumn::VpcID => 22,
            BasicColumn::Type => 12,
            BasicColumn::Key => (20 * w) / 160,
            BasicColumn::State => 10,
            BasicColumn::PublicIp => 15,
            BasicColumn::PrivateIp => 15,
        }
    }
}

/// The contents of an optional string, with the empty string for an absent
/// one.
fn unwrap_or_empty(o: Option<String>) -> (r: String)
    ensures
        r@ == opt_or_empty(opt_str_view(o)),
{
    match o {
        Some(s) => s,
        None => String::new(),
    }
}

impl Instance {
    /// The display text of this entity's cell in `column`.
    pub fn to_column(&self, column: BasicColumn) -> (r: String)
        ensures
            r@ == column_value(self@, column),
    {
        match column {
            BasicColumn::InstanceID => self.instance_id.clone(),
            BasicColumn::Name => unwrap_or_empty(find_tag("name", &self.tags)),
            BasicColumn::Architecture => unwrap_or_empty(clone_opt_string(&self.architecture)),
            BasicColumn::VpcID => unwrap_or_empty(clone_opt_string(&self.vpc_id)),
            BasicColumn::Type => unwrap_or_empty(clone_opt_string(&self.instance_type)),
            BasicColumn::Key => unwrap_or_empty(clone_opt_string(&self.key_name)),
            BasicColumn::State => unwrap_or_empty(clone_opt_string(&self.state_name)),
            BasicColumn::PublicIp => unwrap_or_empty(clone_opt_string(&self.public_ip_address)),
            BasicColumn::PrivateIp => unwrap_or_empty(clone_opt_string(&self.private_ip_address)),
        }
    }

    /// The emphasis class of this entity's cell in `column`.
    pub fn to_column_color(&self, column: BasicColumn) -> (r: ColorClass)
        ensures
            r == column_color(self@, column),
    {
        match column {
            BasicColumn::Name => ColorClass::Highlight,
            BasicColumn::State => match self.state_code {
                Some(code) => if code == 16 {
                    ColorClass::Normal
                } else {
                    ColorClass::Alert
                },
                None => ColorClass::Alert,
            },
            _ => ColorClass::Primary,
        }
    }

    /// The outcome of `column`'s comparison rule between this entity and
    /// `other`.
    pub fn cmp(&self, other: &Instance, column: BasicColumn) -> (r: CmpResult)
        ensures
            r == column_cmp(self@, other@, column),
    {
        match column {
            BasicColumn::InstanceID => str_cmp(self.instance_id.as_str(), other.instance_id.as_str()),
            BasicColumn::Name => str_cmp(self.instance_id.as_str(), other.instance_id.as_str()),
            _ => opt_str_cmp(&self.architecture, &other.architecture),
        }
    }
}

/// Lexicographic comparison of two strings by code point.
fn str_cmp(a: &str, b: &str) -> (r: CmpResult)
    ensures
        r == lex_cmp(a@, b@),
{
    let n: usize = a.unicode_len();
    let m: usize = b.unicode_len();
    let mut i: usize = 0;
    loop
        invariant
            n == a@.len(),
            m == b@.len(),
            i <= n,
            i <= m,
            lex_cmp_from(a@, b@, 0) == lex_cmp_from(a@, b@, i as int),
        decreases n - i,
    {
        if i >= n && i >= m {
            return CmpResult::Equal;
        }
        if i >= n {
            return CmpResult::Less;
        }
        if i >= m {
            return CmpResult::Greater;
        }
        let ca: u32 = a.get_char(i) as u32;
        let cb: u32 = b.get_char(i) as u32;
        if ca < cb {
            return CmpResult::Less;
        }
        if ca > cb {
            return CmpResult::Greater;
        }
        i += 1;
    }
}

/// Comparison of optional strings: an absent value orders first.
fn opt_str_cmp(a: &Option<String>, b: &Option<String>) -> (r: CmpResult)
    ensures
        r == opt_lex_cmp(opt_str_view(*a), opt_str_view(*b)),
{
    match (a, b) {
        (None, None) => CmpResult::Equal,
        (None, Some(_)) => CmpResult::Less,
        (Some(_), None) => CmpResult::Greater,
        (Some(x), Some(y)) => str_cmp(x.as_str(), y.as_str()),
    }
}

} // verus!
