//! The `Oem` object of a Redfish resource, and the reading of the
//! `@odata.type` annotation of a vendor's object in it.

use vstd::prelude::*;

verus! {

broadcast use vstd::string::group_string_axioms;

/// What a vendor's member of an `Oem` object holds, as far as it decides
/// how the member is read.
#[derive(Clone, Debug)]
pub enum OemValue {
    /// The member is JSON `null`.
    Null,
    /// The member is any other JSON value; `odata_type` is its
    /// `@odata.type` member when the value is an object that has one
    /// holding a string.
    Present { odata_type: Option<String> },
}

/// One member of an `Oem` object: the vendor's key and its value.
#[derive(Clone, Debug)]
pub struct OemMember {
    pub key: String,
    pub value: OemValue,
}

/// The `Oem` object of a resource, member by member, in its order.
#[derive(Clone, Debug)]
pub struct ResourceOem {
    pub members: Vec<OemMember>,
}

/// The value of the first member of `members` whose key is `key`.
pub open spec fn member_value(members: Seq<OemMember>, key: Seq<char>) -> Option<OemValue>
    decreases members.len(),
{
    if members.len() == 0 {
        None
    } else if members[0].key@ == key {
        Some(members[0].value)
    } else {
        member_value(members.drop_first(), key)
    }
}

/// The vendor's value that `oem` carries under `key`: `None` when there is
/// no such member and when the member is `null`.
pub open spec fn oem_value_spec(oem: ResourceOem, key: Seq<char>) -> Option<OemValue> {
    match member_value(oem.members@, key) {
        Some(OemValue::Present { odata_type }) => Some(OemValue::Present { odata_type }),
        _ => None,
    }
}

proof fn lemma_member_value_skip(members: Seq<OemMember>, key: Seq<char>, i: int)
    requires
        0 <= i < members.len(),
        members[i].key@ != key,
    ensures
        member_value(members.skip(i), key) == member_value(members.skip(i + 1), key),
{
    assert(members.skip(i).drop_first() =~= members.skip(i + 1));
}

/// Looks up the member of `oem` under `key`, and returns its value unless it
/// is `null`.
pub fn oem_value<'a>(oem: &'a ResourceOem, key: &str) -> (r: Option<&'a OemValue>)
    ensures
        match r {
            Some(v) => oem_value_spec(*oem, key@) == Some(*v),
            None => oem_value_spec(*oem, key@) is None,
        },
{
    let wanted = key.to_owned();
    let n = oem.members.len();
    assert(oem.members@.skip(0) =~= oem.members@);
    for i in 0..n
        invariant
            n == oem.members@.len(),
            wanted@ == key@,
            member_value(oem.members@, key@) == member_value(oem.members@.skip(i as int), key@),
    {
        let member = &oem.members[i];
        if member.key == wanted {
            assert(oem.members@.skip(i as int)[0] == oem.members@[i as int]);
            return match &member.value {
                OemValue::Null => None,
                OemValue::Present { .. } => Some(&member.value),
            };
        }
        proof {
            lemma_member_value_skip(oem.members@, key@, i as int);
        }
    }
    assert(oem.members@.skip(n as int) =~= Seq::<OemMember>::empty());
    None
}

pub proof fn lemma_member_value_first(members: Seq<OemMember>, key: Seq<char>, i: int)
    requires
        0 <= i < members.len(),
        members[i].key@ == key,
        forall|j: int| 0 <= j < i ==> members[j].key@ != key,
    ensures
        member_value(members, key) == Some(members[i].value),
    decreases i,
{
    if i > 0 {
        lemma_member_value_first(members.drop_first(), key, i - 1);
    }
}

pub proof fn lemma_member_value_none(members: Seq<OemMember>, key: Seq<char>)
    requires
        forall|j: int| 0 <= j < members.len() ==> members[j].key@ != key,
    ensures
        member_value(members, key) is None,
    decreases members.len(),
{
    if members.len() > 0 {
        lemma_member_value_none(members.drop_first(), key);
    }
}

/// The lookup gives the value of the first member under the key, or none
/// when that member is `null`.
pub proof fn law_oem_value_first_member(oem: ResourceOem, key: &str, i: int, r: Option<&OemValue>)
    requires
        call_ensures(oem_value, (&oem, key), r),
        0 <= i < oem.members@.len(),
        oem.members@[i].key@ == key@,
        forall|j: int| 0 <= j < i ==> oem.members@[j].key@ != key@,
    ensures
        oem.members@[i].value is Null ==> r is None,
        oem.members@[i].value is Present ==> (r matches Some(v) && *v == oem.members@[i].value),
{
    lemma_member_value_first(oem.members@, key@, i);
}

/// The lookup of a key that no member has gives none.
pub proof fn law_oem_value_missing(oem: ResourceOem, key: &str, r: Option<&OemValue>)
    requires
        call_ensures(oem_value, (&oem, key), r),
        forall|j: int| 0 <= j < oem.members@.len() ==> oem.members@[j].key@ != key@,
    ensures
        r is None,
{
    lemma_member_value_none(oem.members@, key@);
}

/// The characters of `s`, in order.
fn chars_of(s: &str) -> (v: Vec<char>)
    ensures
        v@ == s@,
{
    let mut v: Vec<char> = Vec::new();
    for c in it: s.chars()
        invariant
            it.seq() == s@,
            v@ == it.seq().take(it.index() as int),
    {
        v.push(c);
    }
    v
}

/// `t` without its leading `#`, if it has one.
pub open spec fn without_hash(t: Seq<char>) -> Seq<char> {
    if t.len() > 0 && t[0] == '#' {
        t.drop_first()
    } else {
        t
    }
}

/// The `@odata.type` annotation `odata_type` names the type `kind_name` of
/// the namespace `namespace`, whatever version stands between them: once a
/// leading `#` is dropped, the part before the first `.` is `namespace` and
/// the part after the last `.` is `kind_name`.
pub open spec fn names_type(odata_type: Seq<char>, namespace: Seq<char>, kind_name: Seq<char>) -> bool {
    let body = without_hash(odata_type);
    &&& !namespace.contains('.')
    &&& !kind_name.contains('.')
    &&& namespace.len() + kind_name.len() < body.len()
    &&& body.take(namespace.len() as int) == namespace
    &&& body[namespace.len() as int] == '.'
    &&& body.skip(body.len() - kind_name.len()) == kind_name
    &&& body[body.len() - kind_name.len() - 1] == '.'
}

/// `value` declares, by its `@odata.type`, that it is of the type
/// `kind_name` of the namespace `namespace`.
pub open spec fn declares_spec(value: OemValue, namespace: Seq<char>, kind_name: Seq<char>) -> bool {
    match value {
        OemValue::Present { odata_type: Some(t) } => names_type(t@, namespace, kind_name),
        _ => false,
    }
}

/// An annotation names a type of a namespace whatever version stands
/// between them, and also when there is none: `#namespace.version.kind_name`
/// and `#namespace.kind_name`, and the same without the `#` where the
/// namespace does not start with one, name the type `kind_name` of
/// `namespace`, for any version without a `.`.
pub proof fn law_names_type_any_version(namespace: Seq<char>, version: Seq<char>, kind_name: Seq<char>, hash: bool)
    requires
        !namespace.contains('.'),
        !version.contains('.'),
        !kind_name.contains('.'),
        !hash ==> namespace.len() == 0 || namespace[0] != '#',
    ensures
        names_type(
            (if hash { seq!['#'] } else { seq![] }) + namespace + seq!['.'] + version + seq!['.'] + kind_name,
            namespace,
            kind_name,
        ),
        names_type((if hash { seq!['#'] } else { seq![] }) + namespace + seq!['.'] + kind_name, namespace, kind_name),
{
    let prefix: Seq<char> = if hash { seq!['#'] } else { seq![] };
    let long_t = prefix + namespace + seq!['.'] + version + seq!['.'] + kind_name;
    let short_t = prefix + namespace + seq!['.'] + kind_name;
    let long_body = namespace + seq!['.'] + version + seq!['.'] + kind_name;
    let short_body = namespace + seq!['.'] + kind_name;
    if hash {
        assert(long_t[0] == '#');
        assert(short_t[0] == '#');
        assert(long_t.drop_first() =~= long_body);
        assert(short_t.drop_first() =~= short_body);
    } else {
        assert(long_t =~= long_body);
        assert(short_t =~= short_body);
        if namespace.len() > 0 {
            assert(long_body[0] == namespace[0]);
            assert(short_body[0] == namespace[0]);
        } else {
            assert(long_body[0] == '.');
            assert(short_body[0] == '.');
        }
    }
    assert(without_hash(long_t) =~= long_body);
    assert(without_hash(short_t) =~= short_body);
    assert(long_body.take(namespace.len() as int) =~= namespace);
    assert(long_body.skip(long_body.len() - kind_name.len()) =~= kind_name);
    assert(short_body.take(namespace.len() as int) =~= namespace);
    assert(short_body.skip(short_body.len() - kind_name.len()) =~= kind_name);
}

/// An annotation names at most one type: the namespace and the type name
/// that it names are determined by it.
pub proof fn law_names_type_unique(t: Seq<char>, ns1: Seq<char>, kind1: Seq<char>, ns2: Seq<char>, kind2: Seq<char>)
    requires
        names_type(t, ns1, kind1),
        names_type(t, ns2, kind2),
    ensures
        ns1 == ns2,
        kind1 == kind2,
{
    let body = without_hash(t);
    if ns1.len() < ns2.len() {
        assert(ns2[ns1.len() as int] == body[ns1.len() as int]);
        assert(ns2.contains('.'));
    } else if ns2.len() < ns1.len() {
        assert(ns1[ns2.len() as int] == body[ns2.len() as int]);
        assert(ns1.contains('.'));
    }
    assert(ns1 =~= ns2);
    let n = body.len();
    if kind1.len() < kind2.len() {
        let k = kind2.len() - kind1.len() - 1;
        assert(kind2[k] == body[n - kind1.len() - 1]);
        assert(kind2.contains('.'));
    } else if kind2.len() < kind1.len() {
        let k = kind1.len() - kind2.len() - 1;
        assert(kind1[k] == body[n - kind2.len() - 1]);
        assert(kind1.contains('.'));
    }
    assert(kind1 =~= kind2);
}

/// Whether `s` holds a `.`.
fn has_dot(s: &Vec<char>) -> (r: bool)
    ensures
        r == s@.contains('.'),
{
    let n = s.len();
    for i in 0..n
        invariant
            n == s@.len(),
            forall|j: int| 0 <= j < i ==> s@[j] != '.',
    {
        if s[i] == '.' {
            assert(s@[i as int] == '.');
            return true;
        }
    }
    false
}

/// Whether `hay` holds `needle` at `start`.
fn holds_at(hay: &Vec<char>, start: usize, needle: &Vec<char>) -> (r: bool)
    requires
        start + needle@.len() <= hay@.len(),
    ensures
        r == (hay@.subrange(start as int, start + needle@.len()) == needle@),
{
    let n = needle.len();
    for i in 0..n
        invariant
            n == needle@.len(),
            start + n <= hay.len(),
            forall|j: int| 0 <= j < i ==> hay@[start + j] == needle@[j],
    {
        if hay[start + i] != needle[i] {
            assert(hay@.subrange(start as int, start + n)[i as int] != needle@[i as int]);
            return false;
        }
    }
    assert(hay@.subrange(start as int, start + n) =~= needle@);
    true
}

/// Whether the `@odata.type` annotation `odata_type` names the type
/// `kind_name` of the namespace `namespace`.
pub fn names_type_exec(odata_type: &str, namespace: &str, kind_name: &str) -> (r: bool)
    ensures
        r == names_type(odata_type@, namespace@, kind_name@),
{
    let t = chars_of(odata_type);
    let ns = chars_of(namespace);
    let name = chars_of(kind_name);
    if has_dot(&ns) || has_dot(&name) {
        return false;
    }
    let start: usize = if t.len() > 0 && t[0] == '#' { 1 } else { 0 };
    let ghost body = without_hash(t@);
    assert(body =~= t@.skip(start as int));
    let len = t.len() - start;
    if len <= ns.len() || len - ns.len() <= name.len() {
        return false;
    }
    let name_start = t.len() - name.len();
    assert(body.take(ns@.len() as int) =~= t@.subrange(start as int, start + ns@.len()));
    assert(body.skip(body.len() - name@.len()) =~= t@.subrange(name_start as int, name_start + name@.len()));
    holds_at(&t, start, &ns) && t[start + ns.len()] == '.' && holds_at(&t, name_start, &name) && t[name_start - 1] == '.'
}

/// Whether `value` declares, by its `@odata.type`, that it is of the type
/// `kind_name` of the namespace `namespace`.
pub fn declares(value: &OemValue, namespace: &str, kind_name: &str) -> (r: bool)
    ensures
        r == declares_spec(*value, namespace@, kind_name@),
{
    match value {
        OemValue::Present { odata_type: Some(t) } => names_type_exec(t.as_str(), namespace, kind_name),
        _ => false,
    }
}

/// `namespace.version.kind_name` and `namespace.kind_name`, with a leading
/// `#` or without (where the namespace does not itself start with one),
/// name the type `kind_name` of `namespace`, for any version without a `.`.
pub proof fn law_names_type_exec_accepts_any_version(
    odata_type: &str,
    namespace: &str,
    kind_name: &str,
    version: Option<Seq<char>>,
    hash: bool,
    r: bool,
)
    requires
        call_ensures(names_type_exec, (odata_type, namespace, kind_name), r),
        !namespace@.contains('.'),
        !kind_name@.contains('.'),
        !hash ==> namespace@.len() == 0 || namespace@[0] != '#',
        odata_type@ == match version {
            Some(v) => (if hash { seq!['#'] } else { seq![] }) + namespace@ + seq!['.'] + v + seq!['.'] + kind_name@,
            None => (if hash { seq!['#'] } else { seq![] }) + namespace@ + seq!['.'] + kind_name@,
        },
        version matches Some(v) ==> !v.contains('.'),
    ensures
        r,
{
    law_names_type_any_version(namespace@, match version { Some(v) => v, None => seq![] }, kind_name@, hash);
}

/// An annotation accepted for a namespace and a type name holds, after an
/// optional leading `#`, the namespace followed by a `.` at its start and a
/// `.` followed by the type name at its end, and neither name holds a `.`.
pub proof fn law_names_type_exec_only_named_type(odata_type: &str, namespace: &str, kind_name: &str, r: bool)
    requires
        call_ensures(names_type_exec, (odata_type, namespace, kind_name), r),
        r,
    ensures
        !namespace@.contains('.'),
        !kind_name@.contains('.'),
        ({
            let t = odata_type@;
            let body = if t.len() > 0 && t[0] == '#' { t.subrange(1, t.len() as int) } else { t };
            let n = body.len();
            &&& namespace@.len() + kind_name@.len() < n
            &&& forall|i: int| 0 <= i < namespace@.len() ==> body[i] == namespace@[i]
            &&& body[namespace@.len() as int] == '.'
            &&& forall|i: int| 0 <= i < kind_name@.len() ==> body[n - kind_name@.len() + i] == kind_name@[i]
            &&& body[n - kind_name@.len() - 1] == '.'
        }),
{
    let t = odata_type@;
    let body = without_hash(t);
    assert(body =~= (if t.len() > 0 && t[0] == '#' { t.subrange(1, t.len() as int) } else { t }));
    assert forall|i: int| 0 <= i < namespace@.len() implies body[i] == namespace@[i] by {
        assert(body.take(namespace@.len() as int)[i] == body[i]);
    }
    assert forall|i: int| 0 <= i < kind_name@.len() implies body[body.len() - kind_name@.len() + i] == kind_name@[i] by {
        assert(body.skip(body.len() - kind_name@.len())[i] == body[body.len() - kind_name@.len() + i]);
    }
}

/// Two annotations that are the same and are both accepted name the same
/// namespace and the same type.
pub proof fn law_names_type_exec_unique(
    odata_type: &str,
    ns1: &str,
    kind1: &str,
    r1: bool,
    ns2: &str,
    kind2: &str,
    r2: bool,
)
    requires
        call_ensures(names_type_exec, (odata_type, ns1, kind1), r1),
        call_ensures(names_type_exec, (odata_type, ns2, kind2), r2),
        r1,
        r2,
    ensures
        ns1@ == ns2@,
        kind1@ == kind2@,
{
    law_names_type_unique(odata_type@, ns1@, kind1@, ns2@, kind2@);
}

/// A `null` value and a value without an `@odata.type` declare no type; a
/// value with one declares what that annotation names.
pub proof fn law_declares_reads_odata_type(
    value: OemValue,
    namespace: &str,
    kind_name: &str,
    r: bool,
    t: &str,
    by_name: bool,
)
    requires
        call_ensures(declares, (&value, namespace, kind_name), r),
        call_ensures(names_type_exec, (t, namespace, kind_name), by_name),
    ensures
        value matches OemValue::Null ==> !r,
        value matches OemValue::Present { odata_type: None } ==> !r,
        (value matches OemValue::Present { odata_type: Some(s) } && s@ == t@) ==> r == by_name,
{
}

} // verus!
