//! The configured remotes of the engine, filtered by their kind and sorted.

use crate::text::same_text;
use vstd::prelude::*;
use vstd::seq_lib::{
    to_multiset_contains, to_multiset_insert, to_multiset_len, to_multiset_remove,
};
use vstd::string::StringSliceAdditionalSpecFns;
use vstd::utf8::{encode_utf8, encode_utf8_decode_utf8};

verus! {

/// Name of the field of a remote's description that tells its kind.
pub const TYPE_FIELD: &'static str = "type";

/// Kind of a remote that stands for a Google Drive account.
pub const DRIVE_TYPE: &'static str = "drive";

/// What is put before the cause where the engine did not create a remote.
pub const REMOTE_REJECTED: &'static str = "Failed to create config context: ";

/// One field of the description of a remote.
#[derive(Debug)]
pub struct Field {
    pub name: String,
    /// The value, where it is a text.
    pub text: Option<String>,
}

/// A configured remote, as the engine's configuration dump describes it.
#[derive(Debug)]
pub struct RemoteConfig {
    pub name: String,
    pub fields: Vec<Field>,
}

/// Mathematical value of a `Field`.
pub ghost struct FieldView {
    pub name: Seq<char>,
    pub text: Option<Seq<char>>,
}

/// Mathematical value of a `RemoteConfig`.
pub ghost struct RemoteConfigView {
    pub name: Seq<char>,
    pub fields: Seq<FieldView>,
}

impl View for Field {
    type V = FieldView;

    open spec fn view(&self) -> FieldView {
        FieldView { name: self.name@, text: self.text.deep_view() }
    }
}

impl DeepView for Field {
    type V = FieldView;

    open spec fn deep_view(&self) -> FieldView {
        self@
    }
}

impl View for RemoteConfig {
    type V = RemoteConfigView;

    open spec fn view(&self) -> RemoteConfigView {
        RemoteConfigView { name: self.name@, fields: self.fields.deep_view() }
    }
}

impl DeepView for RemoteConfig {
    type V = RemoteConfigView;

    open spec fn deep_view(&self) -> RemoteConfigView {
        self@
    }
}

/// The text of the first field called `name`; `None` where there is no such
/// field or its value is no text.
pub open spec fn field_text(fields: Seq<FieldView>, name: Seq<char>) -> Option<Seq<char>>
    decreases fields.len(),
{
    if fields.len() == 0 {
        None
    } else if fields[0].name == name {
        fields[0].text
    } else {
        field_text(fields.drop_first(), name)
    }
}

/// Whether `remote` is of kind `kind`.
pub open spec fn has_type(remote: RemoteConfigView, kind: Seq<char>) -> bool {
    field_text(remote.fields, TYPE_FIELD@) == Some(kind)
}

/// The names of the remotes of kind `kind`, in the order of `dump`.
pub open spec fn names_of_type(dump: Seq<RemoteConfigView>, kind: Seq<char>) -> Seq<Seq<char>>
    decreases dump.len(),
{
    if dump.len() == 0 {
        seq![]
    } else if has_type(dump.last(), kind) {
        names_of_type(dump.drop_last(), kind).push(dump.last().name)
    } else {
        names_of_type(dump.drop_last(), kind)
    }
}

/// Whether `a` comes before `b`, or is `b`, in the lexicographic order of
/// bytes.
pub open spec fn bytes_le(a: Seq<u8>, b: Seq<u8>) -> bool
    decreases a.len(),
{
    if a.len() == 0 {
        true
    } else if b.len() == 0 {
        false
    } else if a[0] != b[0] {
        a[0] < b[0]
    } else {
        bytes_le(a.drop_first(), b.drop_first())
    }
}

/// The order of texts: that of their UTF-8 bytes.
pub open spec fn text_le(a: Seq<char>, b: Seq<char>) -> bool {
    bytes_le(encode_utf8(a), encode_utf8(b))
}

/// Whether `names` ascends in the order of texts.
pub open spec fn is_sorted(names: Seq<Seq<char>>) -> bool {
    forall|i: int, j: int| 0 <= i <= j < names.len() ==> text_le(names[i], names[j])
}

/// Of two byte strings one comes before the other, or they are the same.
pub proof fn lemma_bytes_le_total(a: Seq<u8>, b: Seq<u8>)
    ensures
        bytes_le(a, b) || bytes_le(b, a),
    decreases a.len(),
{
    if a.len() > 0 && b.len() > 0 && a[0] == b[0] {
        lemma_bytes_le_total(a.drop_first(), b.drop_first());
    }
}

/// The order of byte strings is transitive.
pub proof fn lemma_bytes_le_transitive(a: Seq<u8>, b: Seq<u8>, c: Seq<u8>)
    requires
        bytes_le(a, b),
        bytes_le(b, c),
    ensures
        bytes_le(a, c),
    decreases a.len(),
{
    if a.len() > 0 && b.len() > 0 && c.len() > 0 && a[0] == b[0] && b[0] == c[0] {
        lemma_bytes_le_transitive(a.drop_first(), b.drop_first(), c.drop_first());
    }
}

/// Byte strings that come before each other are the same.
pub proof fn lemma_bytes_le_antisymmetric(a: Seq<u8>, b: Seq<u8>)
    requires
        bytes_le(a, b),
        bytes_le(b, a),
    ensures
        a == b,
    decreases a.len(),
{
    if a.len() > 0 && b.len() > 0 {
        lemma_bytes_le_antisymmetric(a.drop_first(), b.drop_first());
        assert(a =~= seq![a[0]] + a.drop_first());
        assert(b =~= seq![b[0]] + b.drop_first());
    } else {
        assert(a =~= b);
    }
}

/// Texts that come before each other are the same.
pub proof fn lemma_text_le_antisymmetric(a: Seq<char>, b: Seq<char>)
    requires
        text_le(a, b),
        text_le(b, a),
    ensures
        a == b,
{
    lemma_bytes_le_antisymmetric(encode_utf8(a), encode_utf8(b));
    encode_utf8_decode_utf8(a);
    encode_utf8_decode_utf8(b);
}

/// There is one ascending list of given names only: two ascending lists that
/// hold the same names, each as often as the other, are the same list.
pub proof fn lemma_sorted_names_are_unique(a: Seq<Seq<char>>, b: Seq<Seq<char>>)
    requires
        is_sorted(a),
        is_sorted(b),
        a.to_multiset() == b.to_multiset(),
    ensures
        a == b,
    decreases a.len(),
{
    to_multiset_len(a);
    to_multiset_len(b);
    if a.len() == 0 {
        assert(a =~= b);
    } else {
        to_multiset_contains(a, a[0]);
        to_multiset_contains(b, a[0]);
        to_multiset_contains(a, b[0]);
        to_multiset_contains(b, b[0]);
        assert(a.contains(a[0]));
        assert(b.contains(b[0]));
        let i = choose|i: int| 0 <= i < b.len() && b[i] == a[0];
        let j = choose|j: int| 0 <= j < a.len() && a[j] == b[0];
        assert(text_le(b[0], b[i]));
        assert(text_le(a[0], a[j]));
        lemma_text_le_antisymmetric(a[0], b[0]);
        to_multiset_remove(a, 0);
        to_multiset_remove(b, 0);
        assert(a.remove(0) =~= a.drop_first());
        assert(b.remove(0) =~= b.drop_first());
        let x = a.drop_first();
        let y = b.drop_first();
        assert forall|p: int, q: int| 0 <= p <= q < x.len() implies text_le(x[p], x[q]) by {
            assert(text_le(a[p + 1], a[q + 1]));
        }
        assert forall|p: int, q: int| 0 <= p <= q < y.len() implies text_le(y[p], y[q]) by {
            assert(text_le(b[p + 1], b[q + 1]));
        }
        lemma_sorted_names_are_unique(x, y);
        assert(a =~= seq![a[0]] + x);
        assert(b =~= seq![b[0]] + y);
    }
}

/// Decides `bytes_le`.
pub fn bytes_before(a: &[u8], b: &[u8]) -> (r: bool)
    ensures
        r == bytes_le(a@, b@),
{
    let mut i: usize = 0;
    proof {
        assert(a@.skip(0) =~= a@);
        assert(b@.skip(0) =~= b@);
    }
    while i < a.len() && i < b.len() && a[i] == b[i]
        invariant
            i <= a.len(),
            i <= b.len(),
            bytes_le(a@, b@) == bytes_le(a@.skip(i as int), b@.skip(i as int)),
        decreases a.len() - i,
    {
        proof {
            let x = a@.skip(i as int);
            let y = b@.skip(i as int);
            assert(x.drop_first() =~= a@.skip(i + 1));
            assert(y.drop_first() =~= b@.skip(i + 1));
        }
        i = i + 1;
    }
    if i == a.len() {
        true
    } else if i == b.len() {
        false
    } else {
        a[i] < b[i]
    }
}

/// Looks up the text of the first field called `name`.
pub fn find_field<'a>(fields: &'a Vec<Field>, name: &str) -> (r: Option<&'a String>)
    ensures
        r.deep_view() == field_text(fields.deep_view(), name@),
{
    let mut i: usize = 0;
    proof {
        assert(fields.deep_view().skip(0) =~= fields.deep_view());
    }
    while i < fields.len()
        invariant
            i <= fields.len(),
            field_text(fields.deep_view(), name@) == field_text(
                fields.deep_view().skip(i as int),
                name@,
            ),
        decreases fields.len() - i,
    {
        proof {
            let rest = fields.deep_view().skip(i as int);
            assert(rest[0] == fields@[i as int]@);
            assert(rest.drop_first() =~= fields.deep_view().skip(i + 1));
        }
        if same_text(fields[i].name.as_str(), name) {
            return match &fields[i].text {
                Some(text) => Some(text),
                None => None,
            };
        }
        i = i + 1;
    }
    None
}

/// Decides whether `remote` is of kind `kind`.
pub fn is_of_type(remote: &RemoteConfig, kind: &str) -> (r: bool)
    ensures
        r == has_type(remote@, kind@),
{
    match find_field(&remote.fields, TYPE_FIELD) {
        Some(text) => same_text(text.as_str(), kind),
        None => false,
    }
}

/// Puts `name` into the ascending `names` at its place.
pub fn insert_sorted(names: &mut Vec<String>, name: String)
    requires
        is_sorted(old(names).deep_view()),
    ensures
        is_sorted(final(names).deep_view()),
        final(names).deep_view().to_multiset() == old(names).deep_view().to_multiset().insert(
            name@,
        ),
{
    let mut at: usize = 0;
    while at < names.len() && bytes_before(names[at].as_str().as_bytes(), name.as_str().as_bytes())
        invariant
            at <= names.len(),
            names == old(names),
            forall|i: int| 0 <= i < at ==> text_le(#[trigger] names.deep_view()[i], name@),
        decreases names.len() - at,
    {
        at = at + 1;
    }
    let ghost before = names.deep_view();
    proof {
        assert forall|j: int| at <= j < before.len() implies text_le(
            name@,
            #[trigger] before[j],
        ) by {
            lemma_bytes_le_total(encode_utf8(before[at as int]), encode_utf8(name@));
            assert(text_le(before[at as int], before[j]));
            lemma_bytes_le_transitive(
                encode_utf8(name@),
                encode_utf8(before[at as int]),
                encode_utf8(before[j]),
            );
        }
        lemma_bytes_le_total(encode_utf8(name@), encode_utf8(name@));
    }
    names.insert(at, name);
    proof {
        assert(names.deep_view() =~= before.insert(at as int, name@));
        to_multiset_insert(before, at as int, name@);
    }
}

/// The names of the remotes of kind `kind`, ascending.
pub fn remotes_of_type(dump: &Vec<RemoteConfig>, kind: &str) -> (names: Vec<String>)
    ensures
        is_sorted(names.deep_view()),
        names.deep_view().to_multiset() == names_of_type(dump.deep_view(), kind@).to_multiset(),
{
    let mut names: Vec<String> = Vec::new();
    let mut i: usize = 0;
    proof {
        assert(dump.deep_view().take(0) =~= Seq::<RemoteConfigView>::empty());
        assert(names.deep_view() =~= Seq::<Seq<char>>::empty());
    }
    while i < dump.len()
        invariant
            i <= dump.len(),
            is_sorted(names.deep_view()),
            names.deep_view().to_multiset() == names_of_type(
                dump.deep_view().take(i as int),
                kind@,
            ).to_multiset(),
        decreases dump.len() - i,
    {
        proof {
            let upto = dump.deep_view().take(i + 1);
            assert(upto.drop_last() =~= dump.deep_view().take(i as int));
            assert(upto.last() == dump@[i as int]@);
            let found = names_of_type(dump.deep_view().take(i as int), kind@);
            vstd::seq_lib::to_multiset_build(found, dump@[i as int]@.name);
        }
        if is_of_type(&dump[i], kind) {
            insert_sorted(&mut names, dump[i].name.clone());
        }
        i = i + 1;
    }
    proof {
        assert(dump.deep_view().take(dump.len() as int) =~= dump.deep_view());
    }
    names
}

/// The names of the Google Drive remotes, ascending.
pub fn get_gdrive_remotes(dump: &Vec<RemoteConfig>) -> (names: Vec<String>)
    ensures
        is_sorted(names.deep_view()),
        names.deep_view().to_multiset() == names_of_type(
            dump.deep_view(),
            DRIVE_TYPE@,
        ).to_multiset(),
{
    remotes_of_type(dump, DRIVE_TYPE)
}

} // verus!
