//! The policy's settings: three namespace switches and an allow-list of host
//! port ranges, with the check that guards against a misconfigured list.
use vstd::prelude::*;
use vstd::string::StringExecFns;

verus! {

/// The character of one decimal digit `d` (0 to 9).
pub open spec fn digit_char(d: nat) -> char {
    seq!['0', '1', '2', '3', '4', '5', '6', '7', '8', '9'][d as int]
}

/// Decimal digits of a natural number, most significant first, no leading zero.
pub open spec fn digits(n: nat) -> Seq<char>
    decreases n,
{
    if n < 10 {
        seq![digit_char(n)]
    } else {
        digits(n / 10) + seq![digit_char(n % 10)]
    }
}

/// An integer written in decimal, with a leading `-` when negative.
pub open spec fn decimal_text(n: int) -> Seq<char> {
    if n < 0 {
        seq!['-'] + digits((-n) as nat)
    } else {
        digits(n as nat)
    }
}

/// Relies on `i32`'s `Display` (through `ToString::to_string`): the value in
/// decimal, with a `-` sign for negative values and no padding.
#[verifier::external_body]
fn decimal(n: i32) -> (r: String)
    ensures
        r@ == decimal_text(n as int),
{
    n.to_string()
}

/// The message that names a range whose bounds are in the wrong order.
pub open spec fn range_error_text(min: int, max: int) -> Seq<char> {
    "port min "@ + decimal_text(min) + " cannot be greater than max "@ + decimal_text(max)
}

/// A closed interval `[min, max]` of port numbers.
#[derive(Clone, Copy, Debug, PartialEq, Eq, Structural)]
pub struct PortRange {
    pub min: i32,
    pub max: i32,
}

impl PortRange {
    /// A range is valid when its bounds are in order; `min > max` is a
    /// configuration error, not an empty range.
    pub open spec fn valid(&self) -> bool {
        self.min <= self.max
    }

    /// Membership of a port in the closed interval.
    pub open spec fn contains(&self, port: int) -> bool {
        self.min <= port <= self.max
    }

    /// Whether `port` lies within `[min, max]`.
    pub fn in_range(&self, port: i32) -> (r: bool)
        ensures
            r == self.contains(port as int),
    {
        port >= self.min && port <= self.max
    }

    /// Accepts a range whose bounds are in order; otherwise reports both bounds.
    pub fn validate(&self) -> (r: Result<(), String>)
        ensures
            r is Ok <==> self.valid(),
            r matches Err(m) ==> m@ == range_error_text(self.min as int, self.max as int),
    {
        if self.min > self.max {
            let mut m = String::from_str("port min ");
            let lo = decimal(self.min);
            m.append(lo.as_str());
            m.append(" cannot be greater than max ");
            let hi = decimal(self.max);
            m.append(hi.as_str());
            return Err(m);
        }
        Ok(())
    }
}

/// Every range of the list is valid.
pub open spec fn ranges_valid(ranges: Seq<PortRange>) -> bool {
    forall|i: int| 0 <= i < ranges.len() ==> #[trigger] ranges[i].valid()
}

/// `i` is the position of the first invalid range of the list.
pub open spec fn first_invalid_at(ranges: Seq<PortRange>, i: int) -> bool {
    &&& 0 <= i < ranges.len()
    &&& !ranges[i].valid()
    &&& ranges_valid(ranges.take(i))
}

/// `m` is the message that names the first invalid range of the list.
pub open spec fn reports_first_invalid(ranges: Seq<PortRange>, m: Seq<char>) -> bool {
    exists|i: int|
        #![trigger ranges[i]]
        first_invalid_at(ranges, i) && m == range_error_text(ranges[i].min as int, ranges[i].max as int)
}

/// The tunable parameters of the policy.
#[derive(Clone, Debug)]
pub struct Settings {
    pub allow_host_ipc: bool,
    pub allow_host_network: bool,
    pub allow_host_pid: bool,
    pub allow_host_ports: Vec<PortRange>,
}

impl Default for Settings {
    /// Everything forbidden: no host namespace and no host port.
    fn default() -> (r: Settings)
        ensures
            !r.allow_host_ipc,
            !r.allow_host_network,
            !r.allow_host_pid,
            r.allow_host_ports@ == Seq::<PortRange>::empty(),
    {
        Settings {
            allow_host_ipc: false,
            allow_host_network: false,
            allow_host_pid: false,
            allow_host_ports: Vec::new(),
        }
    }
}

impl Settings {
    /// Settings are valid when each of their ranges is.
    pub open spec fn valid(&self) -> bool {
        ranges_valid(self.allow_host_ports@)
    }

    /// Accepts settings whose ranges are all valid; otherwise reports the
    /// first invalid range in list order.
    pub fn validate(&self) -> (r: Result<(), String>)
        ensures
            r is Ok <==> self.valid(),
            r matches Err(m) ==> reports_first_invalid(self.allow_host_ports@, m@),
    {
        let ranges = &self.allow_host_ports;
        let mut i: usize = 0;
        while i < ranges.len()
            invariant
                ranges@ == self.allow_host_ports@,
                i <= ranges@.len(),
                ranges_valid(ranges@.take(i as int)),
            decreases ranges@.len() - i,
        {
            let res = ranges[i].validate();
            if let Err(m) = res {
                assert(first_invalid_at(ranges@, i as int));
                assert(!ranges@[i as int].valid());
                return Err(m);
            }
            assert(ranges@.take(i as int + 1) =~= ranges@.take(i as int).push(ranges@[i as int]));
            i = i + 1;
        }
        assert(ranges@.take(i as int) =~= ranges@);
        Ok(())
    }
}

/// Settings that have passed validation. The only way to obtain one is
/// through `ValidatedSettings::new`, so unchecked settings never reach the
/// evaluator through it.
pub struct ValidatedSettings {
    settings: Settings,
}

impl ValidatedSettings {
    /// The settings held.
    pub closed spec fn inner(&self) -> Settings {
        self.settings
    }

    #[verifier::type_invariant]
    spec fn held_settings_valid(&self) -> bool {
        self.settings.valid()
    }

    /// Validates `settings` and, if they are valid, marks them as such;
    /// otherwise reports the first invalid range.
    pub fn new(settings: Settings) -> (r: Result<ValidatedSettings, String>)
        ensures
            r is Ok <==> settings.valid(),
            r matches Ok(v) ==> v.inner() == settings,
            r matches Err(m) ==> reports_first_invalid(settings.allow_host_ports@, m@),
    {
        match settings.validate() {
            Ok(()) => Ok(ValidatedSettings { settings }),
            Err(m) => Err(m),
        }
    }

    /// The validated settings.
    pub fn settings(&self) -> (r: &Settings)
        ensures
            *r == self.inner(),
            r.valid(),
    {
        proof {
            use_type_invariant(self);
        }
        &self.settings
    }
}

} // verus!
