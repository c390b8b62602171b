//! The file aggregate: one whole document with its root node and its
//! registries of components and styles.

use crate::error::{agrees, DecodeError, Failure, Place};
use crate::figma::node::{Node, NodeModel};
use crate::json::{find, lookup, members_of, Json, JsonValue, Member};
use crate::parse::{parse, parsed};
use crate::wire::{
    defaulted, distinct_keys, entries_agree, int_of, lemma_registry_failure,
    lemma_registry_keys_distinct, lemma_registry_ok, read_record, registry_of, repeated,
    required, required_int, required_text, text_of,
};
use vstd::prelude::*;

verus! {

/// The description of a reusable component, as a registry holds it.
#[derive(Debug, PartialEq, Eq)]
pub struct Component {
    pub key: String,
    pub name: String,
    pub description: String,
}

/// The mathematical value of a [`Component`].
pub struct ComponentModel {
    pub key: Seq<char>,
    pub name: Seq<char>,
    pub description: Seq<char>,
}

impl DeepView for Component {
    type V = ComponentModel;

    open spec fn deep_view(&self) -> ComponentModel {
        ComponentModel {
            key: self.key@,
            name: self.name@,
            description: self.description@,
        }
    }
}

impl Component {
    /// The value read from the members of a record. The fields are read in the
    /// order of their declaration, and the first failure is the one reported.
    pub open spec fn of_members(m: Seq<(Seq<char>, JsonValue)>) -> Result<ComponentModel, Failure> {
        let key = required(m, "key"@, |v: JsonValue| text_of(v));
        let name = required(m, "name"@, |v: JsonValue| text_of(v));
        let description = required(m, "description"@, |v: JsonValue| text_of(v));
        if key is Err {
            Err(key->Err_0)
        } else if name is Err {
            Err(name->Err_0)
        } else if description is Err {
            Err(description->Err_0)
        } else {
            Ok(
                ComponentModel {
                    key: key->Ok_0,
                    name: name->Ok_0,
                    description: description->Ok_0,
                },
            )
        }
    }

    /// The value read from an object; anything else is a type mismatch.
    pub open spec fn decoded(v: JsonValue) -> Result<ComponentModel, Failure> {
        match v {
            JsonValue::Object(m) => Self::of_members(m),
            _ => Err(Failure::mismatch()),
        }
    }

    /// Decodes a value of this type.
    pub fn decode(j: &Json) -> (r: Result<Component, DecodeError>)
        ensures
            agrees(r, Self::decoded(j.deep_view())),
    {
        let m = read_record(j)?;
        let key = required_text(m, "key")?;
        let name = required_text(m, "name")?;
        let description = required_text(m, "description")?;
        Ok(Component { key, name, description })
    }

    /// Decodes a registry of values of this type from an object: one entry
    /// for each member, in order, under the member's name as its key. A key
    /// that occurs twice is refused with a duplicate-key error that names
    /// it; a failure inside an entry is reported under the entry's key.
    pub fn decode_registry(j: &Json) -> (r: Result<Vec<(String, Component)>, DecodeError>)
        ensures
            match r {
                Ok(entries) => registry_of(j.deep_view(), |x: JsonValue| Self::decoded(x))
                    == Ok::<Seq<(Seq<char>, ComponentModel)>, Failure>(entries.deep_view()),
                Err(e) => registry_of(j.deep_view(), |x: JsonValue| Self::decoded(x)) == Err::<
                    Seq<(Seq<char>, ComponentModel)>,
                    Failure,
                >(e.deep_view()),
            },
    {
        let m = read_record(j)?;
        let ghost all = members_of(m@);
        let mut out: Vec<(String, Component)> = Vec::new();
        let mut k: usize = 0;
        while k < m.len()
            invariant
                0 <= k <= m.len(),
                j.deep_view() == JsonValue::Object(all),
                all == members_of(m@),
                out.len() == k,
                entries_agree(all, |x: JsonValue| Self::decoded(x), out.deep_view(), k as int),
            decreases m.len() - k,
        {
            if repeated(m, k) {
                proof {
                    lemma_registry_failure(
                        j.deep_view(),
                        |x: JsonValue| Self::decoded(x),
                        k as int,
                        out.deep_view(),
                    );
                }
                return Err(DecodeError::duplicate(m[k].name.as_str()));
            }
            match Self::decode(&m[k].value) {
                Ok(x) => {
                    out.push((m[k].name.clone(), x));
                },
                Err(e) => {
                    proof {
                        lemma_registry_failure(
                            j.deep_view(),
                            |x: JsonValue| Self::decoded(x),
                            k as int,
                            out.deep_view(),
                        );
                    }
                    return Err(e.under_field(m[k].name.as_str()));
                },
            }
            k = k + 1;
        }
        proof {
            lemma_registry_ok(j.deep_view(), |x: JsonValue| Self::decoded(x), out.deep_view());
        }
        Ok(out)
    }
}

/// The description of a shared style, as a registry holds it.
#[derive(Debug, PartialEq, Eq)]
pub struct Style {
    pub key: String,
    pub name: String,
    pub description: String,
}

/// The mathematical value of a [`Style`].
pub struct StyleModel {
    pub key: Seq<char>,
    pub name: Seq<char>,
    pub description: Seq<char>,
}

impl DeepView for Style {
    type V = StyleModel;

    open spec fn deep_view(&self) -> StyleModel {
        StyleModel {
            key: self.key@,
            name: self.name@,
            description: self.description@,
        }
    }
}

impl Style {
    /// The value read from the members of a record. The fields are read in the
    /// order of their declaration, and the first failure is the one reported.
    pub open spec fn of_members(m: Seq<(Seq<char>, JsonValue)>) -> Result<StyleModel, Failure> {
        let key = required(m, "key"@, |v: JsonValue| text_of(v));
        let name = required(m, "name"@, |v: JsonValue| text_of(v));
        let description = required(m, "description"@, |v: JsonValue| text_of(v));
        if key is Err {
            Err(key->Err_0)
        } else if name is Err {
            Err(name->Err_0)
        } else if description is Err {
            Err(description->Err_0)
        } else {
            Ok(
                StyleModel {
                    key: key->Ok_0,
                    name: name->Ok_0,
                    description: description->Ok_0,
                },
            )
        }
    }

    /// The value read from an object; anything else is a type mismatch.
    pub open spec fn decoded(v: JsonValue) -> Result<StyleModel, Failure> {
        match v {
            JsonValue::Object(m) => Self::of_members(m),
            _ => Err(Failure::mismatch()),
        }
    }

    /// Decodes a value of this type.
    pub fn decode(j: &Json) -> (r: Result<Style, DecodeError>)
        ensures
            agrees(r, Self::decoded(j.deep_view())),
    {
        let m = read_record(j)?;
        let key = required_text(m, "key")?;
        let name = required_text(m, "name")?;
        let description = required_text(m, "description")?;
        Ok(Style { key, name, description })
    }

    /// Decodes a registry of values of this type from an object: one entry
    /// for each member, in order, under the member's name as its key. A key
    /// that occurs twice is refused with a duplicate-key error that names
    /// it; a failure inside an entry is reported under the entry's key.
    pub fn decode_registry(j: &Json) -> (r: Result<Vec<(String, Style)>, DecodeError>)
        ensures
            match r {
                Ok(entries) => registry_of(j.deep_view(), |x: JsonValue| Self::decoded(x))
                    == Ok::<Seq<(Seq<char>, StyleModel)>, Failure>(entries.deep_view()),
                Err(e) => registry_of(j.deep_view(), |x: JsonValue| Self::decoded(x)) == Err::<
                    Seq<(Seq<char>, StyleModel)>,
                    Failure,
                >(e.deep_view()),
            },
    {
        let m = read_record(j)?;
        let ghost all = members_of(m@);
        let mut out: Vec<(String, Style)> = Vec::new();
        let mut k: usize = 0;
        while k < m.len()
            invariant
                0 <= k <= m.len(),
                j.deep_view() == JsonValue::Object(all),
                all == members_of(m@),
                out.len() == k,
                entries_agree(all, |x: JsonValue| Self::decoded(x), out.deep_view(), k as int),
            decreases m.len() - k,
        {
            if repeated(m, k) {
                proof {
                    lemma_registry_failure(
                        j.deep_view(),
                        |x: JsonValue| Self::decoded(x),
                        k as int,
                        out.deep_view(),
                    );
                }
                return Err(DecodeError::duplicate(m[k].name.as_str()));
            }
            match Self::decode(&m[k].value) {
                Ok(x) => {
                    out.push((m[k].name.clone(), x));
                },
                Err(e) => {
                    proof {
                        lemma_registry_failure(
                            j.deep_view(),
                            |x: JsonValue| Self::decoded(x),
                            k as int,
                            out.deep_view(),
                        );
                    }
                    return Err(e.under_field(m[k].name.as_str()));
                },
            }
            k = k + 1;
        }
        proof {
            lemma_registry_ok(j.deep_view(), |x: JsonValue| Self::decoded(x), out.deep_view());
        }
        Ok(out)
    }
}

/// One whole document.
///
/// The two registries map a key to a description. Each holds its entries in
/// the order of the input, and no key twice: an input that gives a key a
/// second time is refused.
#[derive(Debug, PartialEq, Eq)]
pub struct File {
    pub name: String,
    pub role: String,
    pub last_modified: String,
    pub thumbnail_url: String,
    pub version: String,
    /// The root of the tree: always a [`Node::Document`].
    pub document: Node,
    pub components: Vec<(String, Component)>,
    /// Empty where the input has no field `styles`.
    pub styles: Vec<(String, Style)>,
    pub schema_version: i32,
}

/// The mathematical value of a [`File`].
pub struct FileModel {
    pub name: Seq<char>,
    pub role: Seq<char>,
    pub last_modified: Seq<char>,
    pub thumbnail_url: Seq<char>,
    pub version: Seq<char>,
    pub document: NodeModel,
    pub components: Seq<(Seq<char>, ComponentModel)>,
    pub styles: Seq<(Seq<char>, StyleModel)>,
    pub schema_version: i32,
}

impl DeepView for File {
    type V = FileModel;

    open spec fn deep_view(&self) -> FileModel {
        FileModel {
            name: self.name@,
            role: self.role@,
            last_modified: self.last_modified@,
            thumbnail_url: self.thumbnail_url@,
            version: self.version@,
            document: self.document.deep_view(),
            components: self.components.deep_view(),
            styles: self.styles.deep_view(),
            schema_version: self.schema_version,
        }
    }
}

impl FileModel {
    /// What holds of every file that a decode returns: the root is a
    /// document node, and no registry holds a key twice.
    pub open spec fn wf(self) -> bool {
        &&& self.document is Document
        &&& distinct_keys(self.components)
        &&& distinct_keys(self.styles)
    }
}

impl File {
    /// The root of a file: a node that decodes and is a document. A node
    /// that fails to decode fails with its own error; one that decodes to
    /// another shape is a type mismatch at the root.
    pub open spec fn root_of(v: JsonValue) -> Result<NodeModel, Failure> {
        match Node::decoded(v) {
            Ok(n) => if n is Document {
                Ok(n)
            } else {
                Err(Failure::mismatch())
            },
            Err(f) => Err(f),
        }
    }

    /// The file read from the members of the top-level record. Every field
    /// is required but `styles`, which is empty where absent. The fields
    /// are read in the order of their declaration, and the first failure is
    /// the one reported.
    pub open spec fn of_members(m: Seq<(Seq<char>, JsonValue)>) -> Result<FileModel, Failure> {
        let name = required(m, "name"@, |v: JsonValue| text_of(v));
        let role = required(m, "role"@, |v: JsonValue| text_of(v));
        let last_modified = required(m, "lastModified"@, |v: JsonValue| text_of(v));
        let thumbnail_url = required(m, "thumbnailUrl"@, |v: JsonValue| text_of(v));
        let version = required(m, "version"@, |v: JsonValue| text_of(v));
        let document = required(m, "document"@, |v: JsonValue| Self::root_of(v));
        let components = required(
            m,
            "components"@,
            |v: JsonValue| registry_of(v, |x: JsonValue| Component::decoded(x)),
        );
        let styles = defaulted(
            m,
            "styles"@,
            |v: JsonValue| registry_of(v, |x: JsonValue| Style::decoded(x)),
            Seq::empty(),
        );
        let schema_version = required(m, "schemaVersion"@, |v: JsonValue| int_of(v));
        if name is Err {
            Err(name->Err_0)
        } else if role is Err {
            Err(role->Err_0)
        } else if last_modified is Err {
            Err(last_modified->Err_0)
        } else if thumbnail_url is Err {
            Err(thumbnail_url->Err_0)
        } else if version is Err {
            Err(version->Err_0)
        } else if document is Err {
            Err(document->Err_0)
        } else if components is Err {
            Err(components->Err_0)
        } else if styles is Err {
            Err(styles->Err_0)
        } else if schema_version is Err {
            Err(schema_version->Err_0)
        } else {
            Ok(
                FileModel {
                    name: name->Ok_0,
                    role: role->Ok_0,
                    last_modified: last_modified->Ok_0,
                    thumbnail_url: thumbnail_url->Ok_0,
                    version: version->Ok_0,
                    document: document->Ok_0,
                    components: components->Ok_0,
                    styles: styles->Ok_0,
                    schema_version: schema_version->Ok_0,
                },
            )
        }
    }

    /// The file read from an object; anything else is a type mismatch.
    pub open spec fn decoded(v: JsonValue) -> Result<FileModel, Failure> {
        match v {
            JsonValue::Object(m) => Self::of_members(m),
            _ => Err(Failure::mismatch()),
        }
    }

    /// Every file that decodes is well-formed.
    pub proof fn lemma_decoded_wf(v: JsonValue)
        requires
            Self::decoded(v) is Ok,
        ensures
            Self::decoded(v)->Ok_0.wf(),
    {
        let m = v->Object_0;
        match lookup(m, "components"@) {
            Some(c) => lemma_registry_keys_distinct(c, |x: JsonValue| Component::decoded(x)),
            None => {},
        }
        match lookup(m, "styles"@) {
            Some(s) => lemma_registry_keys_distinct(s, |x: JsonValue| Style::decoded(x)),
            None => {},
        }
    }

    /// Idempotence: decoding is a function of the value alone. Two results
    /// of decoding the same value both succeed or both fail, with equal
    /// files or with equal errors.
    pub proof fn lemma_decode_is_a_function(
        v: JsonValue,
        first: Result<File, DecodeError>,
        second: Result<File, DecodeError>,
    )
        requires
            agrees(first, Self::decoded(v)),
            agrees(second, Self::decoded(v)),
        ensures
            first is Ok <==> second is Ok,
            first is Ok ==> first->Ok_0.deep_view() == second->Ok_0.deep_view(),
            first is Err ==> first->Err_0.deep_view() == second->Err_0.deep_view(),
    {
    }

    /// Idempotence, from text: two results of decoding the same text both
    /// succeed or both fail, with equal files or with equal errors.
    pub proof fn lemma_decode_text_is_a_function(
        text: Seq<char>,
        first: Result<File, DecodeError>,
        second: Result<File, DecodeError>,
    )
        requires
            match parsed(text) {
                Some(v) => agrees(first, Self::decoded(v)) && agrees(second, Self::decoded(v)),
                None => agrees(first, Err(Failure::malformed())) && agrees(
                    second,
                    Err(Failure::malformed()),
                ),
            },
        ensures
            first is Ok <==> second is Ok,
            first is Ok ==> first->Ok_0.deep_view() == second->Ok_0.deep_view(),
            first is Err ==> first->Err_0.deep_view() == second->Err_0.deep_view(),
    {
    }

    /// A root that decodes to a node of another shape than the document
    /// is a type mismatch at `document`, not a failure of the node.
    pub proof fn lemma_root_must_be_document(m: Seq<(Seq<char>, JsonValue)>)
        requires
            lookup(m, "document"@) matches Some(v) && Node::decoded(v) matches Ok(n)
                && !(n is Document),
            required(m, "name"@, |v: JsonValue| text_of(v)) is Ok,
            required(m, "role"@, |v: JsonValue| text_of(v)) is Ok,
            required(m, "lastModified"@, |v: JsonValue| text_of(v)) is Ok,
            required(m, "thumbnailUrl"@, |v: JsonValue| text_of(v)) is Ok,
            required(m, "version"@, |v: JsonValue| text_of(v)) is Ok,
        ensures
            Self::of_members(m) == Err::<FileModel, Failure>(
                Failure::mismatch().under(Place::Field("document"@)),
            ),
    {
    }

    fn decode_root(m: &Vec<Member>) -> (r: Result<Node, DecodeError>)
        ensures
            agrees(r, required(members_of(m@), "document"@, |v: JsonValue| Self::root_of(v))),
    {
        match find(m, "document") {
            Some(j) => match Node::decode(j) {
                Ok(node) => match node {
                    Node::Document { .. } => Ok(node),
                    _ => Err(DecodeError::mismatch().under_field("document")),
                },
                Err(e) => Err(e.under_field("document")),
            },
            None => Err(DecodeError::missing("document")),
        }
    }

    /// Decodes a file from a structured value.
    pub fn decode(j: &Json) -> (r: Result<File, DecodeError>)
        ensures
            agrees(r, Self::decoded(j.deep_view())),
            r matches Ok(file) ==> file.deep_view().wf(),
    {
        let m = read_record(j)?;
        let name = required_text(m, "name")?;
        let role = required_text(m, "role")?;
        let last_modified = required_text(m, "lastModified")?;
        let thumbnail_url = required_text(m, "thumbnailUrl")?;
        let version = required_text(m, "version")?;
        let document = Self::decode_root(m)?;
        let components = match find(m, "components") {
            Some(c) => match Component::decode_registry(c) {
                Ok(entries) => entries,
                Err(e) => { return Err(e.under_field("components")); },
            },
            None => { return Err(DecodeError::missing("components")); },
        };
        let styles = match find(m, "styles") {
            Some(s) => match Style::decode_registry(s) {
                Ok(entries) => entries,
                Err(e) => { return Err(e.under_field("styles")); },
            },
            None => Vec::new(),
        };
        let schema_version = required_int(m, "schemaVersion")?;
        let file = File {
            name,
            role,
            last_modified,
            thumbnail_url,
            version,
            document,
            components,
            styles,
            schema_version,
        };
        proof {
            assert(file.styles.deep_view() =~= Self::decoded(j.deep_view())->Ok_0.styles);
            Self::lemma_decoded_wf(j.deep_view());
        }
        Ok(file)
    }

    /// Decodes a file from text: the one operation that a caller with raw
    /// input needs. A text that is not well-formed is refused as malformed;
    /// a well-formed one is decoded as [`File::decode`] decodes its value.
    pub fn decode_text(text: &str) -> (r: Result<File, DecodeError>)
        ensures
            match parsed(text@) {
                Some(v) => agrees(r, Self::decoded(v)),
                None => agrees(r, Err(Failure::malformed())),
            },
            r matches Ok(file) ==> file.deep_view().wf(),
    {
        let j = parse(text)?;
        Self::decode(&j)
    }
}

} // verus!
