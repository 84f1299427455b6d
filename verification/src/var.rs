//! The typed variable model: well-known UPS variables, device types,
//! variable type descriptors and value ranges.

use vstd::prelude::*;

use crate::error::Error;
use crate::num::{parse_u64, parse_usize, spec_all_digits, spec_digits_val, spec_u64_text, u64_text};
use crate::text::{push_char, str_eq};

verus! {

/// A well-known UPS variable carrying a typed value, or an opaque
/// key/value pair.
#[derive(Debug, Clone, PartialEq, Eq)]
pub enum Variable {
    /// Device model (`device.model`).
    DeviceModel(String),
    /// Device manufacturer (`device.mfr`).
    DeviceManufacturer(String),
    /// Device serial number (`device.serial`).
    DeviceSerial(String),
    /// Device type (`device.type`).
    DeviceType(DeviceType),
    /// Device description (`device.description`).
    DeviceDescription(String),
    /// Device administrator name (`device.contact`).
    DeviceContact(String),
    /// Device physical location (`device.location`).
    DeviceLocation(String),
    /// Device part number (`device.part`).
    DevicePart(String),
    /// Device MAC address (`device.macaddr`).
    DeviceMacAddress(String),
    /// Device uptime in whole seconds (`device.uptime`).
    DeviceUptime(u64),
    /// Any other variable, as a key and a raw value.
    Other(String, String),
}

/// A NUT device type.
#[derive(Debug, Clone, PartialEq, Eq)]
pub enum DeviceType {
    /// An uninterruptible power supply.
    Ups,
    /// A power distribution unit.
    Pdu,
    /// A solar controller device.
    Scd,
    /// A power supply unit.
    Psu,
    /// An automatic transfer switch.
    Ats,
    /// Any other device type, carrying the raw tag.
    Other(String),
}

/// How a raw device type tag maps to its typed kind.
pub open spec fn spec_device_type_of(v: Seq<char>, d: DeviceType) -> bool {
    if v == "ups"@ {
        d == DeviceType::Ups
    } else if v == "pdu"@ {
        d == DeviceType::Pdu
    } else if v == "scd"@ {
        d == DeviceType::Scd
    } else if v == "psu"@ {
        d == DeviceType::Psu
    } else if v == "ats"@ {
        d == DeviceType::Ats
    } else {
        d matches DeviceType::Other(raw) && raw@ == v
    }
}

impl DeviceType {
    /// Maps a raw device type tag to its typed kind, per
    /// [`spec_device_type_of`].
    pub fn from(v: String) -> (r: DeviceType)
        ensures
            spec_device_type_of(v@, r),
    {
        if str_eq(v.as_str(), "ups") {
            DeviceType::Ups
        } else if str_eq(v.as_str(), "pdu") {
            DeviceType::Pdu
        } else if str_eq(v.as_str(), "scd") {
            DeviceType::Scd
        } else if str_eq(v.as_str(), "psu") {
            DeviceType::Psu
        } else if str_eq(v.as_str(), "ats") {
            DeviceType::Ats
        } else {
            DeviceType::Other(v)
        }
    }

    /// The text of the device type: the raw tag for the known kinds,
    /// `other(<raw>)` for the rest.
    pub fn text(&self) -> (r: String)
        ensures
            r@ == spec_device_type_text(*self),
    {
        match self {
            DeviceType::Ups => "ups".to_owned(),
            DeviceType::Pdu => "pdu".to_owned(),
            DeviceType::Scd => "scd".to_owned(),
            DeviceType::Psu => "psu".to_owned(),
            DeviceType::Ats => "ats".to_owned(),
            DeviceType::Other(val) => {
                let mut r = "other(".to_owned();
                r.append(val.as_str());
                push_char(&mut r, ')');
                proof {
                    assert(r@ =~= "other("@ + val@ + seq![')']);
                }
                r
            },
        }
    }
}

/// The text of a device type.
pub open spec fn spec_device_type_text(d: DeviceType) -> Seq<char> {
    match d {
        DeviceType::Ups => "ups"@,
        DeviceType::Pdu => "pdu"@,
        DeviceType::Scd => "scd"@,
        DeviceType::Psu => "psu"@,
        DeviceType::Ats => "ats"@,
        DeviceType::Other(val) => "other("@ + val@ + seq![')'],
    }
}

/// How a raw (name, value) pair maps to a typed variable: each well-known
/// name to its typed variant, everything else (and an unreadable uptime)
/// to the opaque pair.
pub open spec fn spec_variable_parse(name: Seq<char>, value: Seq<char>, v: Variable) -> bool {
    if name == "device.model"@ {
        v matches Variable::DeviceModel(s) && s@ == value
    } else if name == "device.mfr"@ {
        v matches Variable::DeviceManufacturer(s) && s@ == value
    } else if name == "device.serial"@ {
        v matches Variable::DeviceSerial(s) && s@ == value
    } else if name == "device.type"@ {
        v matches Variable::DeviceType(d) && spec_device_type_of(value, d)
    } else if name == "device.description"@ {
        v matches Variable::DeviceDescription(s) && s@ == value
    } else if name == "device.contact"@ {
        v matches Variable::DeviceContact(s) && s@ == value
    } else if name == "device.location"@ {
        v matches Variable::DeviceLocation(s) && s@ == value
    } else if name == "device.part"@ {
        v matches Variable::DevicePart(s) && s@ == value
    } else if name == "device.macaddr"@ {
        v matches Variable::DeviceMacAddress(s) && s@ == value
    } else if name == "device.uptime"@ {
        if spec_all_digits(value) && spec_digits_val(value) <= u64::MAX {
            v matches Variable::DeviceUptime(n) && n == spec_digits_val(value)
        } else {
            v matches Variable::Other(k, w) && k@ == name && w@ == value
        }
    } else {
        v matches Variable::Other(k, w) && k@ == name && w@ == value
    }
}

/// The NUT name of a variable.
pub open spec fn spec_variable_name(v: Variable) -> Seq<char> {
    match v {
        Variable::DeviceModel(_) => "device.model"@,
        Variable::DeviceManufacturer(_) => "device.mfr"@,
        Variable::DeviceSerial(_) => "device.serial"@,
        Variable::DeviceType(_) => "device.type"@,
        Variable::DeviceDescription(_) => "device.description"@,
        Variable::DeviceContact(_) => "device.contact"@,
        Variable::DeviceLocation(_) => "device.location"@,
        Variable::DevicePart(_) => "device.part"@,
        Variable::DeviceMacAddress(_) => "device.macaddr"@,
        Variable::DeviceUptime(_) => "device.uptime"@,
        Variable::Other(k, _) => k@,
    }
}

/// The raw value of a variable.
pub open spec fn spec_variable_value(v: Variable) -> Seq<char> {
    match v {
        Variable::DeviceModel(s) => s@,
        Variable::DeviceManufacturer(s) => s@,
        Variable::DeviceSerial(s) => s@,
        Variable::DeviceType(d) => spec_device_type_text(d),
        Variable::DeviceDescription(s) => s@,
        Variable::DeviceContact(s) => s@,
        Variable::DeviceLocation(s) => s@,
        Variable::DevicePart(s) => s@,
        Variable::DeviceMacAddress(s) => s@,
        Variable::DeviceUptime(n) => spec_u64_text(n as int),
        Variable::Other(_, w) => w@,
    }
}

impl Variable {
    /// Parses a variable from its raw name and value, per
    /// [`spec_variable_parse`].
    pub fn parse(name: &str, value: String) -> (r: Variable)
        ensures
            spec_variable_parse(name@, value@, r),
    {
        if str_eq(name, "device.model") {
            Variable::DeviceModel(value)
        } else if str_eq(name, "device.mfr") {
            Variable::DeviceManufacturer(value)
        } else if str_eq(name, "device.serial") {
            Variable::DeviceSerial(value)
        } else if str_eq(name, "device.type") {
            Variable::DeviceType(DeviceType::from(value))
        } else if str_eq(name, "device.description") {
            Variable::DeviceDescription(value)
        } else if str_eq(name, "device.contact") {
            Variable::DeviceContact(value)
        } else if str_eq(name, "device.location") {
            Variable::DeviceLocation(value)
        } else if str_eq(name, "device.part") {
            Variable::DevicePart(value)
        } else if str_eq(name, "device.macaddr") {
            Variable::DeviceMacAddress(value)
        } else if str_eq(name, "device.uptime") {
            match parse_u64(value.as_str()) {
                Some(n) => Variable::DeviceUptime(n),
                None => Variable::Other(name.to_owned(), value),
            }
        } else {
            Variable::Other(name.to_owned(), value)
        }
    }

    /// The NUT name of the variable.
    pub fn name(&self) -> (r: &str)
        ensures
            r@ == spec_variable_name(*self),
    {
        match self {
            Variable::DeviceModel(_) => "device.model",
            Variable::DeviceManufacturer(_) => "device.mfr",
            Variable::DeviceSerial(_) => "device.serial",
            Variable::DeviceType(_) => "device.type",
            Variable::DeviceDescription(_) => "device.description",
            Variable::DeviceContact(_) => "device.contact",
            Variable::DeviceLocation(_) => "device.location",
            Variable::DevicePart(_) => "device.part",
            Variable::DeviceMacAddress(_) => "device.macaddr",
            Variable::DeviceUptime(_) => "device.uptime",
            Variable::Other(k, _) => k.as_str(),
        }
    }

    /// The raw value of the variable.
    pub fn value(&self) -> (r: String)
        ensures
            r@ == spec_variable_value(*self),
    {
        match self {
            Variable::DeviceModel(s) => s.clone(),
            Variable::DeviceManufacturer(s) => s.clone(),
            Variable::DeviceSerial(s) => s.clone(),
            Variable::DeviceType(d) => d.text(),
            Variable::DeviceDescription(s) => s.clone(),
            Variable::DeviceContact(s) => s.clone(),
            Variable::DeviceLocation(s) => s.clone(),
            Variable::DevicePart(s) => s.clone(),
            Variable::DeviceMacAddress(s) => s.clone(),
            Variable::DeviceUptime(n) => u64_text(*n),
            Variable::Other(_, w) => w.clone(),
        }
    }
}

/// A `STRING:<n>` type tag: the fixed prefix followed by a decimal length
/// of at least one.
pub open spec fn spec_is_string_tag(t: Seq<char>) -> bool {
    t.len() >= 8 && t[0] == 'S' && t[1] == 'T' && t[2] == 'R' && t[3] == 'I' && t[4] == 'N'
        && t[5] == 'G' && t[6] == ':' && spec_all_digits(t.subrange(7, t.len() as int))
        && 1 <= spec_digits_val(t.subrange(7, t.len() as int)) <= usize::MAX
}

/// The length carried by a `STRING:<n>` tag.
pub open spec fn spec_string_tag_len(t: Seq<char>) -> int {
    spec_digits_val(t.subrange(7, t.len() as int))
}

/// The fold of a list of raw type tags over the definition flags:
/// `RW`, `ENUM`, `RANGE`, `NUMBER` each set their flag, `STRING:<n>`
/// sets the string length, anything else fails. Should several string
/// lengths appear, the smallest is kept, so the outcome depends on the
/// set of tags alone, never on their order.
pub open spec fn spec_types_from(
    ts: Seq<Seq<char>>,
    st: (bool, bool, Option<int>, bool, bool),
) -> Option<(bool, bool, Option<int>, bool, bool)>
    decreases ts.len(),
{
    if ts.len() == 0 {
        Some(st)
    } else {
        let t = ts[0];
        let rest = ts.drop_first();
        if t == "RW"@ {
            spec_types_from(rest, (true, st.1, st.2, st.3, st.4))
        } else if t == "ENUM"@ {
            spec_types_from(rest, (st.0, true, st.2, st.3, st.4))
        } else if t == "RANGE"@ {
            spec_types_from(rest, (st.0, st.1, st.2, true, st.4))
        } else if t == "NUMBER"@ {
            spec_types_from(rest, (st.0, st.1, st.2, st.3, true))
        } else if spec_is_string_tag(t) {
            spec_types_from(
                rest,
                (
                    st.0,
                    st.1,
                    match st.2 {
                        None => Some(spec_string_tag_len(t)),
                        Some(m) => if spec_string_tag_len(t) < m {
                            Some(spec_string_tag_len(t))
                        } else {
                            Some(m)
                        },
                    },
                    st.3,
                    st.4,
                ),
            )
        } else {
            None
        }
    }
}

/// A variable definition: a name plus the set of type tags the server
/// reported for it.
#[derive(Debug, Clone, PartialEq, Eq)]
pub struct VariableDefinition {
    name: String,
    mutable: bool,
    enumerated: bool,
    string_len: Option<usize>,
    range: bool,
    number: bool,
}

impl VariableDefinition {
    /// The name of the variable.
    pub closed spec fn spec_name(&self) -> Seq<char> {
        self.name@
    }

    /// Whether the `RW` tag is present.
    pub closed spec fn spec_mutable(&self) -> bool {
        self.mutable
    }

    /// Whether the `ENUM` tag is present.
    pub closed spec fn spec_enumerated(&self) -> bool {
        self.enumerated
    }

    /// The length of the `STRING:<n>` tag, when present.
    pub closed spec fn spec_string_len(&self) -> Option<int> {
        match self.string_len {
            Some(n) => Some(n as int),
            None => None,
        }
    }

    /// Whether the `RANGE` tag is present.
    pub closed spec fn spec_range(&self) -> bool {
        self.range
    }

    /// Whether the `NUMBER` tag is present.
    pub closed spec fn spec_number(&self) -> bool {
        self.number
    }

    /// Builds a definition directly from its parts.
    pub fn new(
        name: &str,
        mutable: bool,
        enumerated: bool,
        string_len: Option<usize>,
        range: bool,
        number: bool,
    ) -> (r: VariableDefinition)
        ensures
            r.spec_name() == name@,
            r.spec_mutable() == mutable,
            r.spec_enumerated() == enumerated,
            r.spec_string_len() == match string_len {
                Some(n) => Some(n as int),
                None => None::<int>,
            },
            r.spec_range() == range,
            r.spec_number() == number,
    {
        VariableDefinition { name: name.to_owned(), mutable, enumerated, string_len, range, number }
    }

    /// Parses a definition from a name and the raw type tags. Fails, with
    /// a generic protocol error, exactly when some tag is not one of
    /// `RW`, `ENUM`, `RANGE`, `NUMBER`, `STRING:<n>`.
    pub fn parse(name: &str, types: &Vec<String>) -> (r: Result<VariableDefinition, Error>)
        ensures
            match r {
                Ok(d) => {
                    &&& spec_types_from(types.deep_view(), (false, false, None, false, false))
                        matches Some(st)
                    &&& d.spec_name() == name@
                    &&& d.spec_mutable() == st.0
                    &&& d.spec_enumerated() == st.1
                    &&& d.spec_string_len() == st.2
                    &&& d.spec_range() == st.3
                    &&& d.spec_number() == st.4
                },
                Err(e) => {
                    &&& spec_types_from(types.deep_view(), (false, false, None, false, false))
                        is None
                    &&& e matches Error::Nut(n)
                    &&& n is Generic
                },
            },
    {
        let mut mutable: bool = false;
        let mut enumerated: bool = false;
        let mut string_len: Option<usize> = None;
        let mut range: bool = false;
        let mut number: bool = false;
        let mut i: usize = 0;
        proof {
            assert(types.deep_view().subrange(0, types@.len() as int) =~= types.deep_view());
        }
        while i < types.len()
            invariant
                i <= types@.len(),
                types.deep_view().len() == types@.len(),
                spec_types_from(types.deep_view(), (false, false, None, false, false))
                    == spec_types_from(
                    types.deep_view().subrange(i as int, types@.len() as int),
                    (
                        mutable,
                        enumerated,
                        match string_len {
                            Some(n) => Some(n as int),
                            None => None::<int>,
                        },
                        range,
                        number,
                    ),
                ),
            decreases types@.len() - i,
        {
            let ghost suf = types.deep_view().subrange(i as int, types@.len() as int);
            proof {
                assert(suf[0] == types.deep_view()[i as int]);
                assert(suf.drop_first() =~= types.deep_view().subrange(
                    i as int + 1,
                    types@.len() as int,
                ));
            }
            let t = &types[i];
            if str_eq(t.as_str(), "RW") {
                mutable = true;
            } else if str_eq(t.as_str(), "ENUM") {
                enumerated = true;
            } else if str_eq(t.as_str(), "RANGE") {
                range = true;
            } else if str_eq(t.as_str(), "NUMBER") {
                number = true;
            } else {
                match parse_string_tag(t.as_str()) {
                    Some(n) => {
                        string_len = match string_len {
                            None => Some(n),
                            Some(m) => if n < m {
                                Some(n)
                            } else {
                                Some(m)
                            },
                        };
                    },
                    None => {
                        return Err(Error::generic("Invalid variable type"));
                    },
                }
            }
            i = i + 1;
        }
        proof {
            assert(types.deep_view().subrange(types@.len() as int, types@.len() as int)
                =~= Seq::<Seq<char>>::empty());
        }
        Ok(
            VariableDefinition {
                name: name.to_owned(),
                mutable,
                enumerated,
                string_len,
                range,
                number,
            },
        )
    }

    /// The name of this variable.
    pub fn name(&self) -> (r: &str)
        ensures
            r@ == self.spec_name(),
    {
        self.name.as_str()
    }

    /// Whether this variable is mutable.
    pub fn is_mutable(&self) -> (r: bool)
        ensures
            r == self.spec_mutable(),
    {
        self.mutable
    }

    /// Whether this variable is an enumerated type.
    pub fn is_enum(&self) -> (r: bool)
        ensures
            r == self.spec_enumerated(),
    {
        self.enumerated
    }

    /// Whether this variable is a string type.
    pub fn is_string(&self) -> (r: bool)
        ensures
            r == (self.spec_string_len() is Some),
    {
        self.string_len.is_some()
    }

    /// Whether this variable is a numeric type within a range.
    pub fn is_range(&self) -> (r: bool)
        ensures
            r == self.spec_range(),
    {
        self.range
    }

    /// Whether this variable is a plain numeric type.
    pub fn is_number(&self) -> (r: bool)
        ensures
            r == self.spec_number(),
    {
        self.number
    }

    /// The maximum string length, when this is a string type.
    pub fn get_string_length(&self) -> (r: Option<usize>)
        ensures
            match r {
                Some(n) => self.spec_string_len() == Some(n as int),
                None => self.spec_string_len() is None,
            },
    {
        self.string_len
    }
}

/// Parses a `STRING:<n>` tag; `None` exactly when the text is not such a
/// tag per [`spec_is_string_tag`].
fn parse_string_tag(t: &str) -> (r: Option<usize>)
    ensures
        match r {
            Some(n) => spec_is_string_tag(t@) && n == spec_string_tag_len(t@),
            None => !spec_is_string_tag(t@),
        },
{
    let len = t.unicode_len();
    if len < 8 {
        return None;
    }
    if t.get_char(0) != 'S' || t.get_char(1) != 'T' || t.get_char(2) != 'R' || t.get_char(3) != 'I'
        || t.get_char(4) != 'N' || t.get_char(5) != 'G' || t.get_char(6) != ':' {
        return None;
    }
    let digits = t.substring_char(7, len);
    proof {
        assert(digits@ =~= t@.subrange(7, t@.len() as int));
    }
    match parse_usize(digits) {
        Some(n) => {
            if n >= 1 {
                Some(n)
            } else {
                None
            }
        },
        None => {
            proof {
                if spec_all_digits(t@.subrange(7, t@.len() as int)) {
                    crate::num::lemma_digits_val_nonneg(t@.subrange(7, t@.len() as int));
                }
            }
            None
        },
    }
}

/// A range of raw values for a variable, as (minimum, maximum).
#[derive(Debug, Clone, PartialEq, Eq)]
pub struct VariableRange(pub String, pub String);

} // verus!
