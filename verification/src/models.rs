//! The records that the storage business keeps: units, tenants, rentals,
//! payments and padlocks, and the summary that reports are built from.
use vstd::prelude::*;
use crate::text::{append_str, chars_of, decimal, digit_char, same_text, string_of};

verus! {

/// A storage unit already saved in the database.
///
/// `width` and `length` hold the bit patterns (`f64::to_bits`) of the
/// stored dimensions in feet, when there are any.
#[derive(Debug, Clone)]
pub struct Unit {
    pub id: i64,
    pub unit_number: String,
    pub building: String,
    pub width: Option<u64>,
    pub length: Option<u64>,
    pub monthly_rent_cents: i64,
    pub occupied: bool,
    pub needs_cleaned: bool,
    pub yellow_lock: bool,
    pub red_lock: bool,
    pub layout_section: String,
    pub display_order: i64,
    pub notes: String,
}

/// Information needed to create a storage unit; the database assigns the
/// ID. `width` and `length` are `f64` bit patterns, as in [`Unit`].
#[derive(Debug, Clone)]
pub struct NewUnit {
    pub unit_number: String,
    pub building: String,
    pub width: Option<u64>,
    pub length: Option<u64>,
    pub monthly_rent_cents: i64,
    pub yellow_lock: bool,
    pub red_lock: bool,
    pub layout_section: String,
    pub display_order: i64,
    pub notes: String,
}

impl Default for NewUnit {
    fn default() -> (r: Self)
        ensures
            r.unit_number@.len() == 0,
            r.building@.len() == 0,
            r.width is None,
            r.length is None,
            r.monthly_rent_cents == 0,
            !r.yellow_lock,
            !r.red_lock,
            r.layout_section@.len() == 0,
            r.display_order == 0,
            r.notes@.len() == 0,
    {
        NewUnit {
            unit_number: String::new(),
            building: String::new(),
            width: None,
            length: None,
            monthly_rent_cents: 0,
            yellow_lock: false,
            red_lock: false,
            layout_section: String::new(),
            display_order: 0,
            notes: String::new(),
        }
    }
}

#[derive(Debug, Clone)]
pub struct Tenant {
    pub id: i64,
    pub first_name: String,
    pub last_name: String,
    pub phone: String,
    pub email: String,
    pub active: bool,
    pub notes: String,
}

/// First name, a space, last name.
pub open spec fn full_name(first: Seq<char>, last: Seq<char>) -> Seq<char> {
    first + seq![' '] + last
}

impl Tenant {
    pub fn display_name(&self) -> (s: String)
        ensures
            s@ == full_name(self.first_name@, self.last_name@),
    {
        let mut out = chars_of(self.first_name.as_str());
        out.push(' ');
        append_str(&mut out, self.last_name.as_str());
        string_of(&out)
    }
}

#[derive(Debug, Clone)]
pub struct NewTenant {
    pub first_name: String,
    pub last_name: String,
    pub phone: String,
    pub email: String,
    pub active: bool,
    pub notes: String,
}

impl Default for NewTenant {
    fn default() -> (r: Self)
        ensures
            r.first_name@.len() == 0,
            r.last_name@.len() == 0,
            r.phone@.len() == 0,
            r.email@.len() == 0,
            r.active,
            r.notes@.len() == 0,
    {
        NewTenant {
            first_name: String::new(),
            last_name: String::new(),
            phone: String::new(),
            email: String::new(),
            active: true,
            notes: String::new(),
        }
    }
}

#[derive(Debug, Clone)]
pub struct Rental {
    pub id: i64,
    pub tenant_name: String,
    pub unit_number: String,
    pub start_date: String,
    pub monthly_rent_cents: i64,
}

#[derive(Debug, Clone)]
pub struct NewRental {
    pub tenant_id: i64,
    pub unit_id: i64,
    pub start_date: String,
    pub monthly_rent_cents: i64,
    pub notes: String,
}

impl Default for NewRental {
    fn default() -> (r: Self)
        ensures
            r.tenant_id == 0,
            r.unit_id == 0,
            r.start_date@.len() == 0,
            r.monthly_rent_cents == 0,
            r.notes@.len() == 0,
    {
        NewRental {
            tenant_id: 0,
            unit_id: 0,
            start_date: String::new(),
            monthly_rent_cents: 0,
            notes: String::new(),
        }
    }
}

#[derive(Debug, Clone, Copy, PartialEq, Eq, Structural)]
pub enum PaymentMethod {
    Cash,
    Check,
    Card,
    BankTransfer,
    Other,
}

impl Default for PaymentMethod {
    fn default() -> (r: Self)
        ensures
            r == PaymentMethod::Cash,
    {
        PaymentMethod::Cash
    }
}

/// The label of a payment method, which is also how it is stored.
pub open spec fn method_label(m: PaymentMethod) -> Seq<char> {
    match m {
        PaymentMethod::Cash => "Cash"@,
        PaymentMethod::Check => "Check"@,
        PaymentMethod::Card => "Card"@,
        PaymentMethod::BankTransfer => "Bank Transfer"@,
        PaymentMethod::Other => "Other"@,
    }
}

/// The payment method that a stored label names; anything unknown is `Other`.
pub open spec fn method_from_label(s: Seq<char>) -> PaymentMethod {
    if s == "Cash"@ {
        PaymentMethod::Cash
    } else if s == "Check"@ {
        PaymentMethod::Check
    } else if s == "Card"@ {
        PaymentMethod::Card
    } else if s == "Bank Transfer"@ {
        PaymentMethod::BankTransfer
    } else {
        PaymentMethod::Other
    }
}

impl PaymentMethod {
    /// Every payment method, in the order a form lists them.
    pub const ALL: [PaymentMethod; 5] = [
        PaymentMethod::Cash,
        PaymentMethod::Check,
        PaymentMethod::Card,
        PaymentMethod::BankTransfer,
        PaymentMethod::Other,
    ];

    pub fn label(self) -> (s: &'static str)
        ensures
            s@ == method_label(self),
    {
        match self {
            PaymentMethod::Cash => "Cash",
            PaymentMethod::Check => "Check",
            PaymentMethod::Card => "Card",
            PaymentMethod::BankTransfer => "Bank Transfer",
            PaymentMethod::Other => "Other",
        }
    }

    pub fn from_database(value: &str) -> (m: Self)
        ensures
            m == method_from_label(value@),
    {
        if same_text(value, "Cash") {
            PaymentMethod::Cash
        } else if same_text(value, "Check") {
            PaymentMethod::Check
        } else if same_text(value, "Card") {
            PaymentMethod::Card
        } else if same_text(value, "Bank Transfer") {
            PaymentMethod::BankTransfer
        } else {
            PaymentMethod::Other
        }
    }
}

/// Every payment method is read back from its stored label as itself.
pub proof fn lemma_method_label_round_trip(m: PaymentMethod)
    ensures
        method_from_label(method_label(m)) == m,
{
    reveal_strlit("Cash");
    reveal_strlit("Check");
    reveal_strlit("Card");
    reveal_strlit("Bank Transfer");
    reveal_strlit("Other");
    assert("Cash"@.len() == 4 && "Card"@.len() == 4 && "Check"@.len() == 5);
    assert("Cash"@[2] == 's' && "Card"@[2] == 'r');
    assert("Cash"@ != "Check"@);
    assert("Cash"@ != "Card"@);
    assert("Check"@ != "Card"@);
    assert("Bank Transfer"@.len() == 13);
    assert("Other"@.len() == 5 && "Other"@[0] == 'O' && "Check"@[0] == 'C');
    assert("Other"@ != "Check"@);
}

#[derive(Debug, Clone)]
pub struct Padlock {
    pub id: i64,
    pub serial_number: String,
    pub combination: String,
    pub unit_id: Option<i64>,
    pub unit_number: Option<String>,
    pub notes: String,
}

#[derive(Debug, Clone)]
pub struct NewPadlock {
    pub serial_number: String,
    pub combination: String,
    pub unit_id: Option<i64>,
    pub notes: String,
}

#[derive(Debug, Clone)]
pub struct Payment {
    pub tenant_name: String,
    pub unit_number: String,
    pub payment_date: String,
    pub amount_cents: i64,
    pub payment_method: PaymentMethod,
    pub reference: String,
}

#[derive(Debug, Clone)]
pub struct NewPayment {
    pub rental_id: i64,
    pub payment_date: String,
    pub amount_cents: i64,
    pub payment_method: PaymentMethod,
    pub reference: String,
    pub notes: String,
}

impl Default for NewPayment {
    fn default() -> (r: Self)
        ensures
            r.rental_id == 0,
            r.payment_date@.len() == 0,
            r.amount_cents == 0,
            r.payment_method == PaymentMethod::Cash,
            r.reference@.len() == 0,
            r.notes@.len() == 0,
    {
        NewPayment {
            rental_id: 0,
            payment_date: String::new(),
            amount_cents: 0,
            payment_method: PaymentMethod::Cash,
            reference: String::new(),
            notes: String::new(),
        }
    }
}

#[derive(Debug, Clone, Copy, PartialEq, Eq, Structural)]
pub struct ReportSummary {
    pub total_units: i64,
    pub occupied_units: i64,
    pub vacant_units: i64,
    pub needs_cleaned_units: i64,
    pub active_tenants: i64,
    pub active_rentals: i64,
    pub monthly_rent_cents: i64,
    pub total_payments_cents: i64,
}

impl Default for ReportSummary {
    fn default() -> (r: Self)
        ensures
            r == (ReportSummary {
                total_units: 0,
                occupied_units: 0,
                vacant_units: 0,
                needs_cleaned_units: 0,
                active_tenants: 0,
                active_rentals: 0,
                monthly_rent_cents: 0,
                total_payments_cents: 0,
            }),
    {
        ReportSummary {
            total_units: 0,
            occupied_units: 0,
            vacant_units: 0,
            needs_cleaned_units: 0,
            active_tenants: 0,
            active_rentals: 0,
            monthly_rent_cents: 0,
            total_payments_cents: 0,
        }
    }
}

impl ReportSummary {
    /// Whether the number of active rentals agrees with the number of
    /// occupied units.
    pub fn rentals_match_occupancy(&self) -> (b: bool)
        ensures
            b == (self.active_rentals == self.occupied_units),
    {
        self.active_rentals == self.occupied_units
    }
}

/// The standard unit sizes.
#[derive(Debug, Clone, Copy, PartialEq, Eq, Structural)]
pub enum UnitSize {
    FiveByFive,
    TenByTen,
    TenByFifteen,
    TenByTwenty,
    TenByThirty,
}

impl Default for UnitSize {
    fn default() -> (r: Self)
        ensures
            r == UnitSize::FiveByFive,
    {
        UnitSize::FiveByFive
    }
}

/// `f64` bit patterns of the whole numbers of feet that standard sizes use.
pub const FEET_5: u64 = 0x4014_0000_0000_0000u64;
pub const FEET_10: u64 = 0x4024_0000_0000_0000u64;
pub const FEET_15: u64 = 0x402e_0000_0000_0000u64;
pub const FEET_20: u64 = 0x4034_0000_0000_0000u64;
pub const FEET_30: u64 = 0x403e_0000_0000_0000u64;

pub open spec fn size_label(s: UnitSize) -> Seq<char> {
    match s {
        UnitSize::FiveByFive => "5ft × 5ft"@,
        UnitSize::TenByTen => "10ft × 10ft"@,
        UnitSize::TenByFifteen => "10ft × 15ft"@,
        UnitSize::TenByTwenty => "10ft × 20ft"@,
        UnitSize::TenByThirty => "10ft × 30ft"@,
    }
}

/// Width and length of a standard size, as `f64` bit patterns.
pub open spec fn size_dimensions(s: UnitSize) -> (u64, u64) {
    match s {
        UnitSize::FiveByFive => (FEET_5, FEET_5),
        UnitSize::TenByTen => (FEET_10, FEET_10),
        UnitSize::TenByFifteen => (FEET_10, FEET_15),
        UnitSize::TenByTwenty => (FEET_10, FEET_20),
        UnitSize::TenByThirty => (FEET_10, FEET_30),
    }
}

/// The standard size whose dimensions are exactly `width` by `length`.
pub open spec fn size_of_dimensions(width: Option<u64>, length: Option<u64>) -> Option<UnitSize> {
    match (width, length) {
        (Some(w), Some(l)) => if w == FEET_5 && l == FEET_5 {
            Some(UnitSize::FiveByFive)
        } else if w == FEET_10 && l == FEET_10 {
            Some(UnitSize::TenByTen)
        } else if w == FEET_10 && l == FEET_15 {
            Some(UnitSize::TenByFifteen)
        } else if w == FEET_10 && l == FEET_20 {
            Some(UnitSize::TenByTwenty)
        } else if w == FEET_10 && l == FEET_30 {
            Some(UnitSize::TenByThirty)
        } else {
            None
        },
        _ => None,
    }
}

impl UnitSize {
    /// Every standard size, smallest first.
    pub const ALL: [UnitSize; 5] = [
        UnitSize::FiveByFive,
        UnitSize::TenByTen,
        UnitSize::TenByFifteen,
        UnitSize::TenByTwenty,
        UnitSize::TenByThirty,
    ];

    pub fn label(self) -> (s: &'static str)
        ensures
            s@ == size_label(self),
    {
        match self {
            UnitSize::FiveByFive => "5ft × 5ft",
            UnitSize::TenByTen => "10ft × 10ft",
            UnitSize::TenByFifteen => "10ft × 15ft",
            UnitSize::TenByTwenty => "10ft × 20ft",
            UnitSize::TenByThirty => "10ft × 30ft",
        }
    }

    /// Width and length in feet, as `f64` bit patterns.
    pub fn dimensions(self) -> (d: (u64, u64))
        ensures
            d == size_dimensions(self),
    {
        match self {
            UnitSize::FiveByFive => (FEET_5, FEET_5),
            UnitSize::TenByTen => (FEET_10, FEET_10),
            UnitSize::TenByFifteen => (FEET_10, FEET_15),
            UnitSize::TenByTwenty => (FEET_10, FEET_20),
            UnitSize::TenByThirty => (FEET_10, FEET_30),
        }
    }

    /// Converts stored dimensions (`f64` bit patterns) back into a standard
    /// size, if they are one.
    pub fn from_dimensions(width: Option<u64>, length: Option<u64>) -> (r: Option<Self>)
        ensures
            r == size_of_dimensions(width, length),
    {
        match (width, length) {
            (Some(w), Some(l)) => if w == FEET_5 && l == FEET_5 {
                Some(UnitSize::FiveByFive)
            } else if w == FEET_10 && l == FEET_10 {
                Some(UnitSize::TenByTen)
            } else if w == FEET_10 && l == FEET_15 {
                Some(UnitSize::TenByFifteen)
            } else if w == FEET_10 && l == FEET_20 {
                Some(UnitSize::TenByTwenty)
            } else if w == FEET_10 && l == FEET_30 {
                Some(UnitSize::TenByThirty)
            } else {
                None
            },
            _ => None,
        }
    }
}

/// The width and length of a standard size in whole feet.
pub open spec fn size_feet(s: UnitSize) -> (nat, nat) {
    match s {
        UnitSize::FiveByFive => (5, 5),
        UnitSize::TenByTen => (10, 10),
        UnitSize::TenByFifteen => (10, 15),
        UnitSize::TenByTwenty => (10, 20),
        UnitSize::TenByThirty => (10, 30),
    }
}

/// The position of the highest set bit of `n` (0 for 0 and 1).
pub open spec fn high_bit(n: nat) -> nat
    decreases n,
{
    if n <= 1 {
        0
    } else {
        1 + high_bit(n / 2)
    }
}

/// The IEEE 754 double-precision bit pattern of the whole number `n`
/// (for 1 <= n < 2^52): biased exponent, then the bits below the leading one.
pub open spec fn whole_feet_bits(n: nat) -> int {
    let e = high_bit(n);
    (1023 + e) * vstd::arithmetic::power2::pow2(52) + (n - vstd::arithmetic::power2::pow2(e))
        * vstd::arithmetic::power2::pow2((52 - e) as nat)
}

/// How a label writes a size of `w` by `l` feet.
pub open spec fn feet_label(w: nat, l: nat) -> Seq<char> {
    decimal(w) + "ft × "@ + decimal(l) + "ft"@
}

/// Each standard size's label spells out its width and length in feet, and
/// its stored dimensions are those same numbers of feet as `f64` values.
pub proof fn lemma_size_label_spells_dimensions(s: UnitSize)
    ensures
        size_label(s) == feet_label(size_feet(s).0, size_feet(s).1),
        size_dimensions(s).0 == whole_feet_bits(size_feet(s).0),
        size_dimensions(s).1 == whole_feet_bits(size_feet(s).1),
{
    reveal_strlit("5ft × 5ft");
    reveal_strlit("10ft × 10ft");
    reveal_strlit("10ft × 15ft");
    reveal_strlit("10ft × 20ft");
    reveal_strlit("10ft × 30ft");
    reveal_strlit("ft × ");
    reveal_strlit("ft");
    assert(digit_char(0) == '0');
    assert(digit_char(1) == '1');
    assert(digit_char(2) == '2');
    assert(digit_char(3) == '3');
    assert(digit_char(5) == '5');
    assert(decimal(1) == seq!['1']);
    assert(decimal(2) == seq!['2']);
    assert(decimal(3) == seq!['3']);
    assert(decimal(5) == seq!['5']);
    assert(decimal(10) == decimal(1).push('0'));
    assert(decimal(15) == decimal(1).push('5'));
    assert(decimal(20) == decimal(2).push('0'));
    assert(decimal(30) == decimal(3).push('0'));
    assert(decimal(10) =~= seq!['1', '0']);
    assert(decimal(15) =~= seq!['1', '5']);
    assert(decimal(20) =~= seq!['2', '0']);
    assert(decimal(30) =~= seq!['3', '0']);
    vstd::arithmetic::power2::lemma2_to64();
    vstd::arithmetic::power2::lemma2_to64_rest();
    assert(high_bit(1) == 0);
    assert(high_bit(2) == 1);
    assert(high_bit(3) == 1);
    assert(high_bit(5) == 2);
    assert(high_bit(7) == 2);
    assert(high_bit(10) == 3);
    assert(high_bit(15) == 3);
    assert(high_bit(20) == 4);
    assert(high_bit(30) == 4);
    assert(whole_feet_bits(5) == 0x4014_0000_0000_0000);
    assert(whole_feet_bits(10) == 0x4024_0000_0000_0000);
    assert(whole_feet_bits(15) == 0x402e_0000_0000_0000);
    assert(whole_feet_bits(20) == 0x4034_0000_0000_0000);
    assert(whole_feet_bits(30) == 0x403e_0000_0000_0000);
    assert(size_label(s) =~= feet_label(size_feet(s).0, size_feet(s).1));
}

/// No two standard sizes share a label.
pub proof fn lemma_size_labels_distinct(a: UnitSize, b: UnitSize)
    ensures
        a != b ==> size_label(a) != size_label(b),
{
    reveal_strlit("5ft × 5ft");
    reveal_strlit("10ft × 10ft");
    reveal_strlit("10ft × 15ft");
    reveal_strlit("10ft × 20ft");
    reveal_strlit("10ft × 30ft");
    if a != b {
        if size_label(a).len() == size_label(b).len() {
            assert(size_label(a)[7] != size_label(b)[7] || size_label(a)[8] != size_label(b)[8]);
        }
    }
}

/// Every standard size is recognised again from its own dimensions.
pub proof fn lemma_size_dimensions_round_trip(s: UnitSize)
    ensures
        size_of_dimensions(Some(size_dimensions(s).0), Some(size_dimensions(s).1)) == Some(s),
{
}

/// Dimensions recognised as a standard size are exactly that size's dimensions.
pub proof fn lemma_recognised_dimensions(width: Option<u64>, length: Option<u64>)
    ensures
        size_of_dimensions(width, length) matches Some(s) ==> width == Some(size_dimensions(s).0)
            && length == Some(size_dimensions(s).1),
{
}

} // verus!
