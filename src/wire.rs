use vstd::prelude::*;

verus! {

broadcast use vstd::std_specs::vec::group_vec_axioms;

/// A structured document in its mathematical form: the shape in which
/// messages and responses travel to and from the service.
pub enum Doc {
    Null,
    Bool(bool),
    Num(int),
    Text(Seq<char>),
    List(Seq<Doc>),
    Object(Seq<(Seq<char>, Doc)>),
}

/// A structured document held in memory: field-name/value pairs, lists,
/// text, unsigned integers, booleans and null.
#[derive(Debug)]
pub enum WireValue {
    Null,
    Bool(bool),
    Num(u64),
    /// A negative integer.
    Signed(i64),
    Text(String),
    List(Vec<WireValue>),
    Object(Vec<(String, WireValue)>),
}

impl WireValue {
    /// What the value holds, as a `Doc`.
    pub open spec fn doc(&self) -> Doc
        decreases self,
    {
        match self {
            WireValue::Null => Doc::Null,
            WireValue::Bool(b) => Doc::Bool(*b),
            WireValue::Num(n) => Doc::Num(*n as int),
            WireValue::Signed(n) => Doc::Num(*n as int),
            WireValue::Text(s) => Doc::Text(s@),
            WireValue::List(items) => Doc::List(
                Seq::new(
                    items.len() as nat,
                    |i: int|
                        if 0 <= i < items.len() {
                            items[i].doc()
                        } else {
                            Doc::Null
                        },
                ),
            ),
            WireValue::Object(fields) => Doc::Object(
                Seq::new(
                    fields.len() as nat,
                    |i: int|
                        if 0 <= i < fields.len() {
                            (fields[i].0@, fields[i].1.doc())
                        } else {
                            (Seq::empty(), Doc::Null)
                        },
                ),
            ),
        }
    }
}

/// The field entries of an object, as name/document pairs.
pub open spec fn entries(fields: Seq<(String, WireValue)>) -> Seq<(Seq<char>, Doc)> {
    Seq::new(fields.len(), |i: int| (fields[i].0@, fields[i].1.doc()))
}

/// The value of the first field named `key`, if any.
pub open spec fn field(fs: Seq<(Seq<char>, Doc)>, key: Seq<char>) -> Option<Doc>
    decreases fs.len(),
{
    if fs.len() == 0 {
        None
    } else if fs[0].0 == key {
        Some(fs[0].1)
    } else {
        field(fs.drop_first(), key)
    }
}

/// Looking a field up in two runs of entries: the first run wins.
pub proof fn lemma_field_concat(a: Seq<(Seq<char>, Doc)>, b: Seq<(Seq<char>, Doc)>, key: Seq<char>)
    ensures
        field(a + b, key) == (if field(a, key) is Some {
            field(a, key)
        } else {
            field(b, key)
        }),
    decreases a.len(),
{
    if a.len() > 0 {
        assert((a + b).drop_first() =~= a.drop_first() + b);
        lemma_field_concat(a.drop_first(), b, key);
    } else {
        assert(a + b =~= b);
    }
}

/// An optional entry holds `key` only when present and named so.
pub proof fn lemma_field_opt_entry(k: Seq<char>, v: Option<Doc>, key: Seq<char>)
    ensures
        field(opt_entry(k, v), key) == (if k == key {
            v
        } else {
            None
        }),
{
    match v {
        Some(d) => {
            assert(opt_entry(k, v).drop_first() =~= Seq::<(Seq<char>, Doc)>::empty());
            assert(field(Seq::<(Seq<char>, Doc)>::empty(), key) is None);
        },
        None => {},
    }
}

/// The value of field `key` of an object; `None` for a missing field or a
/// document that is no object.
pub open spec fn get(d: Doc, key: Seq<char>) -> Option<Doc> {
    match d {
        Doc::Object(fs) => field(fs, key),
        _ => None,
    }
}

/// Zero or one entry: the entry for an optional field that is present.
pub open spec fn opt_entry(key: Seq<char>, v: Option<Doc>) -> Seq<(Seq<char>, Doc)> {
    match v {
        Some(d) => seq![(key, d)],
        None => Seq::empty(),
    }
}

/// A list of text documents.
pub open spec fn text_list_doc(ts: Seq<Seq<char>>) -> Doc {
    Doc::List(ts.map_values(|t: Seq<char>| Doc::Text(t)))
}

pub open spec fn as_text(d: Doc) -> Option<Seq<char>> {
    match d {
        Doc::Text(s) => Some(s),
        _ => None,
    }
}

pub open spec fn as_bool(d: Doc) -> Option<bool> {
    match d {
        Doc::Bool(b) => Some(b),
        _ => None,
    }
}

pub open spec fn as_u64(d: Doc) -> Option<u64> {
    match d {
        Doc::Num(n) => if 0 <= n <= u64::MAX {
            Some(n as u64)
        } else {
            None
        },
        _ => None,
    }
}

pub open spec fn as_u16(d: Doc) -> Option<u16> {
    match d {
        Doc::Num(n) => if 0 <= n <= u16::MAX {
            Some(n as u16)
        } else {
            None
        },
        _ => None,
    }
}

/// A list whose every item is text.
pub open spec fn as_text_list(d: Doc) -> Option<Seq<Seq<char>>> {
    match d {
        Doc::List(items) => if forall|i: int| 0 <= i < items.len() ==> (#[trigger] items[i]) is Text {
            Some(items.map_values(|x: Doc| x->Text_0))
        } else {
            None
        },
        _ => None,
    }
}

/// A required text field: present and text.
pub open spec fn req_text(d: Doc, key: Seq<char>) -> Option<Seq<char>> {
    match get(d, key) {
        Some(x) => as_text(x),
        None => None,
    }
}

/// A required unsigned field.
pub open spec fn req_u64(d: Doc, key: Seq<char>) -> Option<u64> {
    match get(d, key) {
        Some(x) => as_u64(x),
        None => None,
    }
}

/// A required 16-bit unsigned field.
pub open spec fn req_u16(d: Doc, key: Seq<char>) -> Option<u16> {
    match get(d, key) {
        Some(x) => as_u16(x),
        None => None,
    }
}

/// An optional field is read as `Some(None)` when missing or null, as
/// `Some(Some(v))` when it holds a value of its shape, and as `None` (a
/// structural error) otherwise.
pub open spec fn opt_text(d: Doc, key: Seq<char>) -> Option<Option<Seq<char>>> {
    match get(d, key) {
        None => Some(None),
        Some(Doc::Null) => Some(None),
        Some(x) => match as_text(x) {
            Some(v) => Some(Some(v)),
            None => None,
        },
    }
}

pub open spec fn opt_u64(d: Doc, key: Seq<char>) -> Option<Option<u64>> {
    match get(d, key) {
        None => Some(None),
        Some(Doc::Null) => Some(None),
        Some(x) => match as_u64(x) {
            Some(v) => Some(Some(v)),
            None => None,
        },
    }
}

pub open spec fn opt_bool(d: Doc, key: Seq<char>) -> Option<Option<bool>> {
    match get(d, key) {
        None => Some(None),
        Some(Doc::Null) => Some(None),
        Some(x) => match as_bool(x) {
            Some(v) => Some(Some(v)),
            None => None,
        },
    }
}

pub open spec fn opt_text_list(d: Doc, key: Seq<char>) -> Option<Option<Seq<Seq<char>>>> {
    match get(d, key) {
        None => Some(None),
        Some(Doc::Null) => Some(None),
        Some(x) => match as_text_list(x) {
            Some(v) => Some(Some(v)),
            None => None,
        },
    }
}

/// The reason a document could not be read as one of the library's types:
/// a required field is missing, or a field does not have its shape.
#[derive(Debug, Clone, Copy, PartialEq, Eq, Structural)]
pub enum DecodeError {
    Malformed,
}

impl WireValue {
    /// Appends a field to an object's entries.
    pub fn push_field(fields: &mut Vec<(String, WireValue)>, key: &str, value: WireValue)
        ensures
            entries(final(fields)@) == entries(old(fields)@).push((key@, value.doc())),
    {
        let ghost v = value.doc();
        fields.push((key.to_owned(), value));
        assert(entries(final(fields)@) =~= entries(old(fields)@).push((key@, v)));
    }

    /// The value of the first field named `key`, for an object; `None` for a
    /// missing field or a value that is no object.
    pub fn get<'a>(&'a self, key: &str) -> (r: Option<&'a WireValue>)
        ensures
            match r {
                Some(v) => get(self.doc(), key@) == Some(v.doc()),
                None => get(self.doc(), key@) is None,
            },
    {
        match self {
            WireValue::Object(fields) => {
                let k = key.to_owned();
                let ghost fs = entries(fields@);
                assert(self.doc() == Doc::Object(fs)) by {
                    assert(self.doc()->Object_0 =~= fs);
                }
                assert(fs.subrange(0, fs.len() as int) =~= fs);
                let mut i: usize = 0;
                while i < fields.len()
                    invariant
                        0 <= i <= fields.len(),
                        fs == entries(fields@),
                        self.doc() == Doc::Object(fs),
                        k@ == key@,
                        field(fs, key@) == field(fs.subrange(i as int, fs.len() as int), key@),
                    decreases fields.len() - i,
                {
                    let ghost rest = fs.subrange(i as int, fs.len() as int);
                    assert(rest.drop_first() =~= fs.subrange(i + 1, fs.len() as int));
                    assert(rest[0] == fs[i as int]);
                    if fields[i].0 == k {
                        assert(fs[i as int] == (fields@[i as int].0@, fields@[i as int].1.doc()));
                        return Some(&fields[i].1);
                    }
                    i = i + 1;
                }
                None
            },
            _ => None,
        }
    }
}

/// The texts held by a vector of strings.
pub open spec fn strings(v: Seq<String>) -> Seq<Seq<char>> {
    v.map_values(|s: String| s@)
}

/// The text of an optional string.
pub open spec fn opt_string(o: Option<String>) -> Option<Seq<char>> {
    match o {
        Some(s) => Some(s@),
        None => None,
    }
}

/// The texts of an optional vector of strings.
pub open spec fn opt_strings(o: Option<Vec<String>>) -> Option<Seq<Seq<char>>> {
    match o {
        Some(v) => Some(strings(v@)),
        None => None,
    }
}

/// An object's document is made of its entries.
pub proof fn lemma_object_doc(fields: Vec<(String, WireValue)>)
    ensures
        WireValue::Object(fields).doc() == Doc::Object(entries(fields@)),
{
    assert(WireValue::Object(fields).doc()->Object_0 =~= entries(fields@));
}

/// A list's document is made of its items' documents.
pub proof fn lemma_list_doc(items: Vec<WireValue>)
    ensures
        WireValue::List(items).doc() == Doc::List(items@.map_values(|x: WireValue| x.doc())),
{
    assert(WireValue::List(items).doc()->List_0 =~= items@.map_values(|x: WireValue| x.doc()));
}

/// The document of an optional value.
pub open spec fn opt_value_doc(o: Option<WireValue>) -> Option<Doc> {
    match o {
        Some(v) => Some(v.doc()),
        None => None,
    }
}

/// The document of an optional text.
pub open spec fn opt_text_doc(o: Option<Seq<char>>) -> Option<Doc> {
    match o {
        Some(s) => Some(Doc::Text(s)),
        None => None,
    }
}

impl WireValue {
    /// Appends a text field to an object's entries when the text is present.
    pub fn push_opt_text(fields: &mut Vec<(String, WireValue)>, key: &str, o: &Option<String>)
        ensures
            entries(final(fields)@) == entries(old(fields)@) + opt_entry(key@, opt_text_doc(opt_string(*o))),
    {
        let ghost before = entries(fields@);
        match o {
            Some(s) => {
                WireValue::push_field(fields, key, WireValue::Text(s.clone()));
                assert(before.push((key@, Doc::Text(s@))) =~= before + seq![(key@, Doc::Text(s@))]);
            },
            None => {
                assert(before + Seq::<(Seq<char>, Doc)>::empty() =~= before);
            },
        }
    }

    /// Appends a field to an object's entries when the value is present.
    pub fn push_opt(fields: &mut Vec<(String, WireValue)>, key: &str, o: Option<WireValue>)
        ensures
            entries(final(fields)@) == entries(old(fields)@) + opt_entry(key@, opt_value_doc(o)),
    {
        let ghost before = entries(fields@);
        match o {
            Some(v) => {
                let ghost d = v.doc();
                WireValue::push_field(fields, key, v);
                assert(before.push((key@, d)) =~= before + seq![(key@, d)]);
            },
            None => {
                assert(before + Seq::<(Seq<char>, Doc)>::empty() =~= before);
            },
        }
    }

    /// A list of texts.
    pub fn text_list(v: &Vec<String>) -> (r: WireValue)
        ensures
            r.doc() == text_list_doc(strings(v@)),
    {
        let mut out: Vec<WireValue> = Vec::new();
        let mut i: usize = 0;
        while i < v.len()
            invariant
                0 <= i <= v.len(),
                out@.len() == i,
                forall|j: int| 0 <= j < i ==> (#[trigger] out@[j]).doc() == Doc::Text(v@[j]@),
            decreases v.len() - i,
        {
            out.push(WireValue::Text(v[i].clone()));
            i = i + 1;
        }
        proof {
            lemma_list_doc(out);
            assert(out@.map_values(|x: WireValue| x.doc()) =~= strings(v@).map_values(
                |t: Seq<char>| Doc::Text(t),
            ));
        }
        WireValue::List(out)
    }

    /// This value as text.
    pub fn to_text(&self) -> (r: Result<String, DecodeError>)
        ensures
            match r {
                Ok(s) => as_text(self.doc()) == Some(s@),
                Err(_) => as_text(self.doc()) is None,
            },
    {
        match self {
            WireValue::Text(s) => Ok(s.clone()),
            _ => Err(DecodeError::Malformed),
        }
    }

    /// This value as a list of texts.
    pub fn to_text_list(&self) -> (r: Result<Vec<String>, DecodeError>)
        ensures
            match r {
                Ok(v) => as_text_list(self.doc()) == Some(strings(v@)),
                Err(_) => as_text_list(self.doc()) is None,
            },
    {
        match self {
            WireValue::List(items) => {
                let ghost ds = self.doc()->List_0;
                assert(ds.len() == items.len());
                assert(forall|j: int| 0 <= j < items.len() ==> ds[j] == (#[trigger] items@[j]).doc());
                let mut out: Vec<String> = Vec::new();
                let mut i: usize = 0;
                while i < items.len()
                    invariant
                        0 <= i <= items.len(),
                        ds.len() == items.len(),
                        self.doc() == Doc::List(ds),
                        forall|j: int| 0 <= j < items.len() ==> ds[j] == (#[trigger] items@[j]).doc(),
                        out@.len() == i,
                        forall|j: int| 0 <= j < i ==> (#[trigger] ds[j]) == Doc::Text(out@[j]@),
                    decreases items.len() - i,
                {
                    match &items[i] {
                        WireValue::Text(t) => {
                            out.push(t.clone());
                        },
                        _ => {
                            assert(!(ds[i as int] is Text));
                            return Err(DecodeError::Malformed);
                        },
                    }
                    i = i + 1;
                }
                assert(ds.map_values(|x: Doc| x->Text_0) =~= strings(out@));
                Ok(out)
            },
            _ => Err(DecodeError::Malformed),
        }
    }

    /// This value as an unsigned integer.
    pub fn to_u64(&self) -> (r: Result<u64, DecodeError>)
        ensures
            match r {
                Ok(n) => as_u64(self.doc()) == Some(n),
                Err(_) => as_u64(self.doc()) is None,
            },
    {
        match self {
            WireValue::Num(n) => Ok(*n),
            WireValue::Signed(n) => if *n >= 0 {
                Ok(*n as u64)
            } else {
                Err(DecodeError::Malformed)
            },
            _ => Err(DecodeError::Malformed),
        }
    }

    /// This value as a 16-bit unsigned integer.
    pub fn to_u16(&self) -> (r: Result<u16, DecodeError>)
        ensures
            match r {
                Ok(n) => as_u16(self.doc()) == Some(n),
                Err(_) => as_u16(self.doc()) is None,
            },
    {
        match self {
            WireValue::Num(n) => if *n <= 65535 {
                Ok(*n as u16)
            } else {
                Err(DecodeError::Malformed)
            },
            WireValue::Signed(n) => if 0 <= *n && *n <= 65535 {
                Ok(*n as u16)
            } else {
                Err(DecodeError::Malformed)
            },
            _ => Err(DecodeError::Malformed),
        }
    }

    /// This value as a boolean.
    pub fn to_bool(&self) -> (r: Result<bool, DecodeError>)
        ensures
            match r {
                Ok(b) => as_bool(self.doc()) == Some(b),
                Err(_) => as_bool(self.doc()) is None,
            },
    {
        match self {
            WireValue::Bool(b) => Ok(*b),
            _ => Err(DecodeError::Malformed),
        }
    }

    /// Whether this value is null.
    pub fn is_null(&self) -> (r: bool)
        ensures
            r == (self.doc() == Doc::Null),
    {
        match self {
            WireValue::Null => true,
            _ => false,
        }
    }

    /// The value of a required text field.
    pub fn req_text(&self, key: &str) -> (r: Result<String, DecodeError>)
        ensures
            match r {
                Ok(s) => req_text(self.doc(), key@) == Some(s@),
                Err(_) => req_text(self.doc(), key@) is None,
            },
    {
        match self.get(key) {
            Some(v) => v.to_text(),
            None => Err(DecodeError::Malformed),
        }
    }

    /// The value of a required unsigned field.
    pub fn req_u64(&self, key: &str) -> (r: Result<u64, DecodeError>)
        ensures
            match r {
                Ok(n) => req_u64(self.doc(), key@) == Some(n),
                Err(_) => req_u64(self.doc(), key@) is None,
            },
    {
        match self.get(key) {
            Some(v) => v.to_u64(),
            None => Err(DecodeError::Malformed),
        }
    }

    /// The value of a required 16-bit unsigned field.
    pub fn req_u16(&self, key: &str) -> (r: Result<u16, DecodeError>)
        ensures
            match r {
                Ok(n) => req_u16(self.doc(), key@) == Some(n),
                Err(_) => req_u16(self.doc(), key@) is None,
            },
    {
        match self.get(key) {
            Some(v) => v.to_u16(),
            None => Err(DecodeError::Malformed),
        }
    }

    /// The value of an optional text field.
    pub fn opt_text(&self, key: &str) -> (r: Result<Option<String>, DecodeError>)
        ensures
            match r {
                Ok(o) => opt_text(self.doc(), key@) == Some(opt_string(o)),
                Err(_) => opt_text(self.doc(), key@) is None,
            },
    {
        match self.get(key) {
            None => Ok(None),
            Some(v) => if v.is_null() {
                Ok(None)
            } else {
                match v.to_text() {
                    Ok(s) => Ok(Some(s)),
                    Err(e) => Err(e),
                }
            },
        }
    }

    /// The value of an optional unsigned field.
    pub fn opt_u64(&self, key: &str) -> (r: Result<Option<u64>, DecodeError>)
        ensures
            match r {
                Ok(o) => opt_u64(self.doc(), key@) == Some(o),
                Err(_) => opt_u64(self.doc(), key@) is None,
            },
    {
        match self.get(key) {
            None => Ok(None),
            Some(v) => if v.is_null() {
                Ok(None)
            } else {
                match v.to_u64() {
                    Ok(n) => Ok(Some(n)),
                    Err(e) => Err(e),
                }
            },
        }
    }

    /// The value of an optional boolean field.
    pub fn opt_bool(&self, key: &str) -> (r: Result<Option<bool>, DecodeError>)
        ensures
            match r {
                Ok(o) => opt_bool(self.doc(), key@) == Some(o),
                Err(_) => opt_bool(self.doc(), key@) is None,
            },
    {
        match self.get(key) {
            None => Ok(None),
            Some(v) => if v.is_null() {
                Ok(None)
            } else {
                match v.to_bool() {
                    Ok(b) => Ok(Some(b)),
                    Err(e) => Err(e),
                }
            },
        }
    }

    /// The value of an optional field that holds a list of texts.
    pub fn opt_text_list(&self, key: &str) -> (r: Result<Option<Vec<String>>, DecodeError>)
        ensures
            match r {
                Ok(o) => opt_text_list(self.doc(), key@) == Some(opt_strings(o)),
                Err(_) => opt_text_list(self.doc(), key@) is None,
            },
    {
        match self.get(key) {
            None => Ok(None),
            Some(v) => if v.is_null() {
                Ok(None)
            } else {
                match v.to_text_list() {
                    Ok(l) => Ok(Some(l)),
                    Err(e) => Err(e),
                }
            },
        }
    }
}

} // verus!
