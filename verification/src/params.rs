//! The parameter store: what the host passes by name when it opens an image.
//!
//! The host describes each parameter by a name, a type tag, a count and a
//! value. Entries that are malformed are dropped, the rest are kept
//! under their names, a later entry shadowing an earlier one of the same
//! name. A lookup names the type and the count it expects and finds nothing
//! where the stored value differs in either.

use vstd::prelude::*;

verus! {

/// Type tag of integer values, the character `i`.
pub const TAG_INTEGER: u8 = 0x69;

/// Type tag of floating values, the character `f`.
pub const TAG_FLOAT: u8 = 0x66;

/// Type tag of string values, the character `s`.
pub const TAG_STRING: u8 = 0x73;

/// A parameter value. Floating values are held as bit patterns.
#[derive(Debug)]
pub enum CParameter {
    Integer(i32),
    IntegerArray(Vec<i32>),
    Float(u32),
    FloatArray(Vec<u32>),
    String(String),
    StringArray(Vec<String>),
}

/// The mathematical value of a [`CParameter`].
pub enum CParameterView {
    Integer(i32),
    IntegerArray(Seq<i32>),
    Float(u32),
    FloatArray(Seq<u32>),
    String(Seq<char>),
    StringArray(Seq<Seq<char>>),
}

/// The three kinds of value the host can pass.
#[derive(Clone, Copy, Debug, PartialEq, Eq, Structural)]
pub enum ParameterType {
    Integer,
    Float,
    String,
}

/// What the value pointer of a host parameter leads to.
#[derive(Debug)]
pub enum ParameterValue {
    /// The pointer is null.
    Null,
    Integers(Vec<i32>),
    Floats(Vec<u32>),
    Strings(Vec<String>),
}

/// One entry of the host's parameter array.
#[derive(Debug)]
pub struct UserParameter {
    pub name: String,
    pub value_type: u8,
    pub value_count: i32,
    pub value: ParameterValue,
}

/// The views of a sequence of strings.
pub open spec fn string_views(strings: Seq<String>) -> Seq<Seq<char>> {
    Seq::new(strings.len(), |i: int| strings[i]@)
}

impl View for CParameter {
    type V = CParameterView;

    open spec fn view(&self) -> CParameterView {
        match *self {
            CParameter::Integer(v) => CParameterView::Integer(v),
            CParameter::IntegerArray(v) => CParameterView::IntegerArray(v@),
            CParameter::Float(v) => CParameterView::Float(v),
            CParameter::FloatArray(v) => CParameterView::FloatArray(v@),
            CParameter::String(v) => CParameterView::String(v@),
            CParameter::StringArray(v) => CParameterView::StringArray(string_views(v@)),
        }
    }
}

impl CParameterView {
    /// The kind of the value.
    pub open spec fn parameter_type(self) -> ParameterType {
        match self {
            CParameterView::Integer(_) | CParameterView::IntegerArray(_) => ParameterType::Integer,
            CParameterView::Float(_) | CParameterView::FloatArray(_) => ParameterType::Float,
            CParameterView::String(_) | CParameterView::StringArray(_) => ParameterType::String,
        }
    }

    /// The number of elements: one for a scalar.
    pub open spec fn count(self) -> nat {
        match self {
            CParameterView::Integer(_) | CParameterView::Float(_) | CParameterView::String(_) => 1,
            CParameterView::IntegerArray(v) => v.len(),
            CParameterView::FloatArray(v) => v.len(),
            CParameterView::StringArray(v) => v.len(),
        }
    }

    /// The type tag the host uses for a value of this kind.
    pub open spec fn tag(self) -> u8 {
        match self.parameter_type() {
            ParameterType::Integer => TAG_INTEGER,
            ParameterType::Float => TAG_FLOAT,
            ParameterType::String => TAG_STRING,
        }
    }

    /// The value is of the given kind and has the given number of elements.
    pub open spec fn fits(self, type_: ParameterType, count: nat) -> bool {
        self.parameter_type() == type_ && self.count() == count
    }
}

impl CParameter {
    /// The kind of the value.
    pub fn parameter_type(&self) -> (r: ParameterType)
        ensures
            r == self@.parameter_type(),
    {
        match self {
            CParameter::Integer(_) | CParameter::IntegerArray(_) => ParameterType::Integer,
            CParameter::Float(_) | CParameter::FloatArray(_) => ParameterType::Float,
            CParameter::String(_) | CParameter::StringArray(_) => ParameterType::String,
        }
    }

    /// The number of elements: one for a scalar.
    pub fn count(&self) -> (r: usize)
        ensures
            r == self@.count(),
    {
        match self {
            CParameter::Integer(_) | CParameter::Float(_) | CParameter::String(_) => 1,
            CParameter::IntegerArray(v) => v.len(),
            CParameter::FloatArray(v) => v.len(),
            CParameter::StringArray(v) => v.len(),
        }
    }
}

impl From<CParameter> for u8 {
    /// The type tag the host uses for a value of this kind.
    fn from(parameter_type: CParameter) -> (tag: Self) {
        match parameter_type {
            CParameter::Integer(_) | CParameter::IntegerArray(_) => TAG_INTEGER,
            CParameter::Float(_) | CParameter::FloatArray(_) => TAG_FLOAT,
            CParameter::String(_) | CParameter::StringArray(_) => TAG_STRING,
        }
    }
}

impl vstd::std_specs::convert::FromSpecImpl<CParameter> for u8 {
    open spec fn obeys_from_spec() -> bool {
        true
    }

    open spec fn from_spec(parameter_type: CParameter) -> u8 {
        parameter_type@.tag()
    }
}

impl UserParameter {
    /// The value that the store keeps for this entry, if it keeps one.
    ///
    /// The entry is kept where its value pointer is not null, its tag is one
    /// of the three known ones, the value behind the pointer is of the tagged
    /// kind and holds as many elements as the entry declares, at least one. A
    /// single element is kept as a scalar, more as an array.
    pub open spec fn accepted(self) -> Option<CParameterView> {
        match self.value {
            ParameterValue::Null => None,
            ParameterValue::Integers(v) => if self.value_type == TAG_INTEGER && v.len()
                == self.value_count && v.len() >= 1 {
                Some(
                    if v.len() == 1 {
                        CParameterView::Integer(v[0])
                    } else {
                        CParameterView::IntegerArray(v@)
                    },
                )
            } else {
                None
            },
            ParameterValue::Floats(v) => if self.value_type == TAG_FLOAT && v.len()
                == self.value_count && v.len() >= 1 {
                Some(
                    if v.len() == 1 {
                        CParameterView::Float(v[0])
                    } else {
                        CParameterView::FloatArray(v@)
                    },
                )
            } else {
                None
            },
            ParameterValue::Strings(v) => if self.value_type == TAG_STRING && v.len()
                == self.value_count && v.len() >= 1 {
                Some(
                    if v.len() == 1 {
                        CParameterView::String(v[0]@)
                    } else {
                        CParameterView::StringArray(string_views(v@))
                    },
                )
            } else {
                None
            },
        }
    }
}

/// The mapping from names to values that a parameter array stands for.
pub open spec fn parameter_map(parameter: Seq<UserParameter>) -> Map<Seq<char>, CParameterView>
    decreases parameter.len(),
{
    if parameter.len() == 0 {
        Map::empty()
    } else {
        let earlier = parameter_map(parameter.drop_last());
        match parameter.last().accepted() {
            Some(value) => earlier.insert(parameter.last().name@, value),
            None => earlier,
        }
    }
}

/// The parameter store.
#[derive(Debug)]
pub struct CParameterList {
    parameter: Vec<(String, CParameter)>,
}

/// The mapping that a list of named values stands for, later entries
/// shadowing earlier ones.
pub open spec fn entry_map(entries: Seq<(String, CParameter)>) -> Map<Seq<char>, CParameterView>
    decreases entries.len(),
{
    if entries.len() == 0 {
        Map::empty()
    } else {
        entry_map(entries.drop_last()).insert(entries.last().0@, entries.last().1@)
    }
}

/// A name that no entry from `from` on carries is mapped as by the entries before `from`.
proof fn lemma_entry_map_skips(entries: Seq<(String, CParameter)>, from: int, name: Seq<char>)
    requires
        0 <= from <= entries.len(),
        forall|j: int| from <= j < entries.len() ==> entries[j].0@ != name,
    ensures
        entry_map(entries).dom().contains(name) == entry_map(entries.take(from)).dom().contains(
            name,
        ),
        entry_map(entries).dom().contains(name) ==> entry_map(entries)[name] == entry_map(
            entries.take(from),
        )[name],
    decreases entries.len() - from,
{
    if from == entries.len() {
        assert(entries.take(from) =~= entries);
    } else {
        lemma_entry_map_skips(entries.drop_last(), from, name);
        assert(entries.drop_last().take(from) =~= entries.take(from));
    }
}

impl View for CParameterList {
    type V = Map<Seq<char>, CParameterView>;

    closed spec fn view(&self) -> Map<Seq<char>, CParameterView> {
        entry_map(self.parameter@)
    }
}

impl CParameterList {
    /// The value stored under `name`, if there is one and it is of kind
    /// `type_` with `count` elements.
    pub fn get(&self, name: &str, type_: ParameterType, count: usize) -> (r: Option<&CParameter>)
        ensures
            match r {
                Some(value) => self@.dom().contains(name@) && self@[name@] == value@
                    && value@.fits(type_, count as nat),
                None => !(self@.dom().contains(name@) && self@[name@].fits(type_, count as nat)),
            },
    {
        let wanted = String::from_str(name);
        let mut i: usize = self.parameter.len();
        while i > 0
            invariant
                i <= self.parameter.len(),
                wanted@ == name@,
                forall|j: int| i <= j < self.parameter.len() ==> self.parameter[j].0@ != name@,
            decreases i,
        {
            i -= 1;
            if self.parameter[i].0 == wanted {
                let value = &self.parameter[i].1;
                proof {
                    let entries = self.parameter@;
                    lemma_entry_map_skips(entries, i + 1, name@);
                    assert(entries.take(i + 1).drop_last() =~= entries.take(i as int));
                }
                if value.parameter_type() == type_ && value.count() == count {
                    return Some(value);
                } else {
                    return None;
                }
            }
        }
        proof {
            lemma_entry_map_skips(self.parameter@, 0, name@);
        }
        None
    }
}

impl UserParameter {
    /// The value that the store keeps for this entry, if it keeps one.
    pub fn accept(&self) -> (r: Option<CParameter>)
        ensures
            match r {
                Some(value) => self.accepted() == Some(value@),
                None => self.accepted().is_none(),
            },
    {
        match &self.value {
            ParameterValue::Null => None,
            ParameterValue::Integers(v) => {
                if self.value_type == TAG_INTEGER && v.len() >= 1 && self.value_count >= 1
                    && v.len() == self.value_count as usize {
                    if v.len() == 1 {
                        Some(CParameter::Integer(v[0]))
                    } else {
                        Some(CParameter::IntegerArray(v.clone()))
                    }
                } else {
                    None
                }
            },
            ParameterValue::Floats(v) => {
                if self.value_type == TAG_FLOAT && v.len() >= 1 && self.value_count >= 1
                    && v.len() == self.value_count as usize {
                    if v.len() == 1 {
                        Some(CParameter::Float(v[0]))
                    } else {
                        Some(CParameter::FloatArray(v.clone()))
                    }
                } else {
                    None
                }
            },
            ParameterValue::Strings(v) => {
                if self.value_type == TAG_STRING && v.len() >= 1 && self.value_count >= 1
                    && v.len() == self.value_count as usize {
                    if v.len() == 1 {
                        Some(CParameter::String(v[0].clone()))
                    } else {
                        Some(CParameter::StringArray(v.clone()))
                    }
                } else {
                    None
                }
            },
        }
    }
}

/// Builds the store from the host's parameter array.
pub fn get_parameter_list(parameter: &Vec<UserParameter>) -> (list: CParameterList)
    ensures
        list@ == parameter_map(parameter@),
{
    let mut entries: Vec<(String, CParameter)> = Vec::new();
    let mut i: usize = 0;
    while i < parameter.len()
        invariant
            i <= parameter.len(),
            entry_map(entries@) == parameter_map(parameter@.take(i as int)),
        decreases parameter.len() - i,
    {
        proof {
            assert(parameter@.take(i + 1).drop_last() =~= parameter@.take(i as int));
        }
        match parameter[i].accept() {
            Some(value) => {
                let ghost before = entries@;
                entries.push((parameter[i].name.clone(), value));
                proof {
                    assert(entries@.drop_last() =~= before);
                }
            },
            None => {},
        }
        i += 1;
    }
    proof {
        assert(parameter@.take(i as int) =~= parameter@);
    }
    CParameterList { parameter: entries }
}

/// The integer stored under `name`, if a single integer is stored there.
pub open spec fn integer_of(store: Map<Seq<char>, CParameterView>, name: Seq<char>) -> Option<i32> {
    if store.dom().contains(name) {
        match store[name] {
            CParameterView::Integer(v) => Some(v),
            _ => None,
        }
    } else {
        None
    }
}

/// The floating value stored under `name`, if a single one is stored there.
pub open spec fn float_of(store: Map<Seq<char>, CParameterView>, name: Seq<char>) -> Option<u32> {
    if store.dom().contains(name) {
        match store[name] {
            CParameterView::Float(v) => Some(v),
            _ => None,
        }
    } else {
        None
    }
}

/// The string stored under `name`, if a single string is stored there.
pub open spec fn string_of(store: Map<Seq<char>, CParameterView>, name: Seq<char>) -> Option<
    Seq<char>,
> {
    if store.dom().contains(name) {
        match store[name] {
            CParameterView::String(v) => Some(v),
            _ => None,
        }
    } else {
        None
    }
}

/// The integers stored under `name`, if an array of `count` integers is stored there.
pub open spec fn integer_array_of(
    store: Map<Seq<char>, CParameterView>,
    name: Seq<char>,
    count: nat,
) -> Option<Seq<i32>> {
    if store.dom().contains(name) {
        match store[name] {
            CParameterView::IntegerArray(v) => if v.len() == count {
                Some(v)
            } else {
                None
            },
            _ => None,
        }
    } else {
        None
    }
}

/// The floating values stored under `name`, if an array of `count` of them is stored there.
pub open spec fn float_array_of(
    store: Map<Seq<char>, CParameterView>,
    name: Seq<char>,
    count: nat,
) -> Option<Seq<u32>> {
    if store.dom().contains(name) {
        match store[name] {
            CParameterView::FloatArray(v) => if v.len() == count {
                Some(v)
            } else {
                None
            },
            _ => None,
        }
    } else {
        None
    }
}

impl CParameterList {
    /// The integer stored under `name`.
    pub fn get_integer(&self, name: &str) -> (r: Option<i32>)
        ensures
            r == integer_of(self@, name@),
    {
        match self.get(name, ParameterType::Integer, 1) {
            Some(CParameter::Integer(v)) => Some(*v),
            _ => None,
        }
    }

    /// The floating value stored under `name`.
    pub fn get_float(&self, name: &str) -> (r: Option<u32>)
        ensures
            r == float_of(self@, name@),
    {
        match self.get(name, ParameterType::Float, 1) {
            Some(CParameter::Float(v)) => Some(*v),
            _ => None,
        }
    }

    /// The string stored under `name`.
    pub fn get_string(&self, name: &str) -> (r: Option<&String>)
        ensures
            match r {
                Some(v) => string_of(self@, name@) == Some(v@),
                None => string_of(self@, name@).is_none(),
            },
    {
        match self.get(name, ParameterType::String, 1) {
            Some(CParameter::String(v)) => Some(v),
            _ => None,
        }
    }

    /// The array of `count` integers stored under `name`.
    pub fn get_integer_array(&self, name: &str, count: usize) -> (r: Option<&Vec<i32>>)
        ensures
            match r {
                Some(v) => integer_array_of(self@, name@, count as nat) == Some(v@),
                None => integer_array_of(self@, name@, count as nat).is_none(),
            },
    {
        match self.get(name, ParameterType::Integer, count) {
            Some(CParameter::IntegerArray(v)) => Some(v),
            _ => None,
        }
    }

    /// The array of `count` floating values stored under `name`.
    pub fn get_float_array(&self, name: &str, count: usize) -> (r: Option<&Vec<u32>>)
        ensures
            match r {
                Some(v) => float_array_of(self@, name@, count as nat) == Some(v@),
                None => float_array_of(self@, name@, count as nat).is_none(),
            },
    {
        match self.get(name, ParameterType::Float, count) {
            Some(CParameter::FloatArray(v)) => Some(v),
            _ => None,
        }
    }
}

} // verus!
