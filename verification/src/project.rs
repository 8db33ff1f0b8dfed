//! Settings of an Xcode project document.
//!
//! The document is a property list. What it holds is addressed by the keys
//! that lead to it from the document's root, through nested dictionaries.
//! Dictionaries and texts are read and written here; every other value is
//! carried along as it is.
use crate::bundle::{bundle_name, static_library_name, static_library_path};
use plist::{Dictionary, Value};
use vstd::prelude::*;

verus! {

/// `plist::Value`, a value of a property list. Nothing inside it is seen
/// here; what it holds is spoken of through [`value_paths`].
#[verifier::external_type_specification]
#[verifier::external_body]
pub struct ExValue(Value);

/// `plist::Dictionary`, a dictionary of a property list. Nothing inside
/// it is seen here; what it holds is spoken of through
/// [`dictionary_paths`].
#[verifier::external_type_specification]
#[verifier::external_body]
pub struct ExDictionary(Dictionary);

/// What stands at the end of a key path.
pub enum Node {
    /// A dictionary; what it holds stands at the longer paths.
    Branch,
    /// A text.
    Text(Seq<char>),
    /// A value of any other kind: an array, a number, a boolean, a date,
    /// data or a uid. It is held whole; nothing inside it has a path.
    Other(Value),
}

/// What a property list value holds, by key path. The empty path stands
/// for the value itself. A value that is a dictionary has the node
/// `Branch` there and, for each of its keys, the key in front of every
/// path of the value under that key. A value that is a text has the empty
/// path alone, with the text. A value of any other kind has the empty path
/// alone, with the value itself.
pub uninterp spec fn value_paths(value: Value) -> Map<Seq<Seq<char>>, Node>;

/// What a property list dictionary holds, by key path: the same as a value
/// that is this dictionary.
pub uninterp spec fn dictionary_paths(dictionary: Dictionary) -> Map<Seq<Seq<char>>, Node>;

/// The key paths of a document with what stands at each.
pub type Paths = Map<Seq<Seq<char>>, Node>;

/// The paths of what stands under `key`.
pub open spec fn below(paths: Paths, key: Seq<char>) -> Paths {
    Map::new(|p: Seq<Seq<char>>| paths.contains_key(seq![key] + p), |p: Seq<Seq<char>>| paths[seq![key] + p])
}

/// The paths once what stands under `key` has been replaced by something
/// with the paths `sub`.
pub open spec fn grafted(paths: Paths, key: Seq<char>, sub: Paths) -> Paths {
    Map::new(
        |p: Seq<Seq<char>>|
            if p.len() > 0 && p[0] == key {
                sub.contains_key(p.skip(1))
            } else {
                paths.contains_key(p)
            },
        |p: Seq<Seq<char>>|
            if p.len() > 0 && p[0] == key {
                sub[p.skip(1)]
            } else {
                paths[p]
            },
    )
}

/// The paths of a text.
pub open spec fn text_paths(text: Seq<char>) -> Paths {
    Map::empty().insert(Seq::<Seq<char>>::empty(), Node::Text(text))
}

/// Whether a dictionary stands at `path`.
pub open spec fn dictionary_at(paths: Paths, path: Seq<Seq<char>>) -> bool {
    paths.contains_key(path) && paths[path] is Branch
}

/// `Value::as_dictionary_mut` hands out the dictionary that a value is, and
/// nothing for any other value. What is done to the dictionary is done to
/// the value. A value that is no dictionary holds nothing under any key.
pub assume_specification[ Value::as_dictionary_mut ](value: &mut Value) -> (dictionary: Option<
    &mut Dictionary,
>)
    ensures
        dictionary is Some <==> dictionary_at(value_paths(*old(value)), Seq::empty()),
        dictionary is None ==> *final(value) == *old(value) && forall|p: Seq<Seq<char>>|
            p.len() > 0 ==> !value_paths(*old(value)).contains_key(p),
        dictionary is Some ==> dictionary_paths(*dictionary.unwrap()) == value_paths(*old(value))
            && value_paths(*final(value)) == dictionary_paths(*final(dictionary.unwrap())),
;

/// `Dictionary::get_mut` hands out the value under a key, and nothing for
/// a key that the dictionary does not hold. What is done to that value is
/// done under the key; what stands under every other key stays, of
/// whatever kind it is.
pub assume_specification<'a>[ Dictionary::get_mut ](dictionary: &'a mut Dictionary, key: &str) -> (value:
    Option<&'a mut Value>)
    ensures
        value is None ==> *final(dictionary) == *old(dictionary) && forall|p: Seq<Seq<char>>|
            p.len() > 0 && p[0] == key@ ==> !dictionary_paths(*old(dictionary)).contains_key(p),
        value is Some ==> value_paths(*value.unwrap()) == below(dictionary_paths(*old(dictionary)), key@)
            && dictionary_paths(*final(dictionary)) == grafted(
            dictionary_paths(*old(dictionary)),
            key@,
            value_paths(*final(value.unwrap())),
        ),
;

/// `Dictionary::insert` puts a value under a key, in place of what stood
/// there; what stands under every other key stays, of whatever kind it
/// is.
pub assume_specification[ Dictionary::insert ](dictionary: &mut Dictionary, k: String, v: Value) -> (former:
    Option<Value>)
    ensures
        dictionary_paths(*final(dictionary)) == grafted(dictionary_paths(*old(dictionary)), k@, value_paths(v)),
;

/// `Value::from` makes of a string the value that is this text.
pub assume_specification[ <Value as From<String>>::from ](from: String) -> (value: Value)
    ensures
        value_paths(value) == text_paths(from@),
;

/// The paths once the text `text` stands at `path`, in place of whatever
/// stood there and under it. Every other path keeps what stands at it.
pub open spec fn with_text(paths: Paths, path: Seq<Seq<char>>, text: Seq<char>) -> Paths {
    Map::new(
        |p: Seq<Seq<char>>|
            if path.is_prefix_of(p) {
                p == path
            } else {
                paths.contains_key(p)
            },
        |p: Seq<Seq<char>>|
            if p == path {
                Node::Text(text)
            } else {
                paths[p]
            },
    )
}

/// The path of the setting `field` of the project object `object`.
pub open spec fn setting_path(object: Seq<char>, field: Seq<char>) -> Seq<Seq<char>> {
    seq!["objects"@, object, field]
}

/// The path of the project object `object`.
pub open spec fn object_path(object: Seq<char>) -> Seq<Seq<char>> {
    seq!["objects"@, object]
}

/// The paths once the setting `field` of the project object `object` has
/// been set to `text`; the same paths where there is no such object.
pub open spec fn with_setting(paths: Paths, object: Seq<char>, field: Seq<char>, text: Seq<char>) -> Paths {
    if dictionary_at(paths, object_path(object)) {
        with_text(paths, setting_path(object, field), text)
    } else {
        paths
    }
}

/// Putting back what stood under a key changes nothing.
proof fn lemma_graft_same(paths: Paths, key: Seq<char>)
    ensures
        grafted(paths, key, below(paths, key)) == paths,
{
    let again = grafted(paths, key, below(paths, key));
    assert forall|p: Seq<Seq<char>>| #[trigger]
        again.dom().contains(p) == paths.dom().contains(p) && (again.dom().contains(p) ==> again[p]
            == paths[p]) by {
        if p.len() > 0 && p[0] == key {
            assert(seq![key] + p.skip(1) =~= p);
        }
    }
    assert(again.dom() =~= paths.dom());
    assert(again =~= paths);
}

/// A text put under a key of a dictionary that lies two keys deep stands
/// at the path of the three keys, and the rest of the document stays.
proof fn lemma_graft_text(paths: Paths, outer: Seq<char>, inner: Seq<char>, field: Seq<char>, text: Seq<char>)
    ensures
        grafted(
            paths,
            outer,
            grafted(
                below(paths, outer),
                inner,
                grafted(below(below(paths, outer), inner), field, text_paths(text)),
            ),
        ) == with_text(paths, seq![outer, inner, field], text),
{
    let path = seq![outer, inner, field];
    let m1 = below(paths, outer);
    let m2 = below(m1, inner);
    let s2 = grafted(m2, field, text_paths(text));
    let s1 = grafted(m1, inner, s2);
    let got = grafted(paths, outer, s1);
    let want = with_text(paths, path, text);
    assert forall|p: Seq<Seq<char>>| #[trigger]
        got.dom().contains(p) == want.dom().contains(p) && (got.dom().contains(p) ==> got[p] == want[p]) by {
        if p.len() > 0 && p[0] == outer {
            let q = p.skip(1);
            assert(seq![outer] + q =~= p);
            if q.len() > 0 && q[0] == inner {
                let r = q.skip(1);
                assert(seq![inner] + r =~= q);
                if r.len() > 0 && r[0] == field {
                    assert(path.is_prefix_of(p)) by {
                        assert(p.subrange(0, 3) =~= path);
                    }
                    if r.skip(1).len() == 0 {
                        assert(r.skip(1) =~= Seq::<Seq<char>>::empty());
                        assert(p =~= path);
                    } else {
                        assert(p.len() > 3);
                    }
                } else {
                    assert(!path.is_prefix_of(p)) by {
                        if path.is_prefix_of(p) {
                            assert(p.subrange(0, 3)[2] == path[2]);
                        }
                    }
                }
            } else {
                assert(!path.is_prefix_of(p)) by {
                    if path.is_prefix_of(p) {
                        assert(p.subrange(0, 3)[1] == path[1]);
                    }
                }
            }
        } else {
            assert(!path.is_prefix_of(p)) by {
                if path.is_prefix_of(p) {
                    assert(p.subrange(0, 3)[0] == path[0]);
                }
            }
        }
    }
    assert(got.dom() =~= want.dom());
    assert(got =~= want);
}

/// Sets the setting `field` of the project object `object` to `text`. The
/// project's objects lie in the dictionary under the key `objects` of the
/// document's root. Where the document has no such object, nothing is set
/// and the answer is `false`.
pub fn set_object_text(project: &mut Value, object: &str, field: &str, text: String) -> (done: bool)
    ensures
        done <==> dictionary_at(value_paths(*old(project)), object_path(object@)),
        done ==> value_paths(*final(project)) == with_text(
            value_paths(*old(project)),
            setting_path(object@, field@),
            text@,
        ),
        !done ==> value_paths(*final(project)) == value_paths(*old(project)),
        value_paths(*final(project)) == with_setting(value_paths(*old(project)), object@, field@, text@),
{
    proof {
        let m0 = value_paths(*project);
        let m1 = below(m0, "objects"@);
        lemma_graft_same(m0, "objects"@);
        lemma_graft_same(m1, object@);
        lemma_graft_text(m0, "objects"@, object@, field@, text@);
        assert(seq!["objects"@] + seq![object@] =~= object_path(object@));
        assert(seq![object@] + Seq::<Seq<char>>::empty() =~= seq![object@]);
    }
    match project.as_dictionary_mut() {
        None => false,
        Some(root) => match root.get_mut("objects") {
            None => false,
            Some(objects) => match objects.as_dictionary_mut() {
                None => false,
                Some(objs) => match objs.get_mut(object) {
                    None => false,
                    Some(entry) => match entry.as_dictionary_mut() {
                        None => false,
                        Some(fields) => {
                            fields.insert(String::from_str(field), Value::from(text));
                            true
                        },
                    },
                },
            },
        },
    }
}

/// The project object of the static library that the bundle links.
pub const LIB_KEY: &'static str = "9E4ACB8B299AC54200A2B1CE";

/// The project object of the bundle that is built.
pub const BUNDLE_KEY: &'static str = "E23329D61DF092AD0002B4FE";

/// The project object of the bundle's build target.
pub const BUNDLE_CONFIGURATION_KEY: &'static str = "E23329D51DF092AD0002B4FE";

/// Whether the document has the three project objects that a template is
/// expected to have.
pub open spec fn is_template(paths: Paths) -> bool {
    &&& dictionary_at(paths, object_path(LIB_KEY@))
    &&& dictionary_at(paths, object_path(BUNDLE_KEY@))
    &&& dictionary_at(paths, object_path(BUNDLE_CONFIGURATION_KEY@))
}

/// The paths of a project template once it has been made the project of
/// `plugin`, built for `target`: the library's name and path, the bundle's
/// name, and the name and product name of the build target are set.
pub open spec fn project_of(paths: Paths, target: Seq<char>, plugin: Seq<char>) -> Paths {
    let named = with_setting(paths, LIB_KEY@, "name"@, "lib"@ + plugin + ".a"@);
    let placed = with_setting(
        named,
        LIB_KEY@,
        "path"@,
        "target/"@ + target + "/release/lib"@ + plugin + ".a"@,
    );
    let bundled = with_setting(placed, BUNDLE_KEY@, "name"@, plugin + ".plugin"@);
    let configured = with_setting(bundled, BUNDLE_CONFIGURATION_KEY@, "name"@, plugin);
    with_setting(configured, BUNDLE_CONFIGURATION_KEY@, "productName"@, plugin)
}

/// Setting a setting of one object leaves every object where it is.
pub proof fn lemma_setting_keeps_objects(
    paths: Paths,
    object: Seq<char>,
    field: Seq<char>,
    text: Seq<char>,
    other: Seq<char>,
)
    ensures
        dictionary_at(with_setting(paths, object, field, text), object_path(other)) == dictionary_at(
            paths,
            object_path(other),
        ),
{
    let path = setting_path(object, field);
    assert(!path.is_prefix_of(object_path(other)));
    assert(object_path(other) != path) by {
        assert(object_path(other).len() != path.len());
    }
}

/// Whether `p` is one of the five settings that a project takes from its
/// plugin, or lies below one.
pub open spec fn is_plugin_setting(p: Seq<Seq<char>>) -> bool {
    ||| setting_path(LIB_KEY@, "name"@).is_prefix_of(p)
    ||| setting_path(LIB_KEY@, "path"@).is_prefix_of(p)
    ||| setting_path(BUNDLE_KEY@, "name"@).is_prefix_of(p)
    ||| setting_path(BUNDLE_CONFIGURATION_KEY@, "name"@).is_prefix_of(p)
    ||| setting_path(BUNDLE_CONFIGURATION_KEY@, "productName"@).is_prefix_of(p)
}

/// A project is its template everywhere but at the five settings: whatever
/// stands at any other path of the template, a dictionary, a text or a
/// value of another kind, stands there in the project, and the project has
/// no other path besides.
pub proof fn lemma_project_keeps_the_rest(paths: Paths, target: Seq<char>, plugin: Seq<char>, p: Seq<Seq<char>>)
    requires
        !is_plugin_setting(p),
    ensures
        project_of(paths, target, plugin).contains_key(p) == paths.contains_key(p),
        paths.contains_key(p) ==> project_of(paths, target, plugin)[p] == paths[p],
{
}

/// In the project made of a template, each of the five settings holds its
/// text.
pub proof fn lemma_project_settings(paths: Paths, target: Seq<char>, plugin: Seq<char>)
    requires
        is_template(paths),
    ensures
        ({
            let project = project_of(paths, target, plugin);
            &&& project[setting_path(LIB_KEY@, "name"@)] == Node::Text("lib"@ + plugin + ".a"@)
            &&& project[setting_path(LIB_KEY@, "path"@)] == Node::Text(
                "target/"@ + target + "/release/lib"@ + plugin + ".a"@,
            )
            &&& project[setting_path(BUNDLE_KEY@, "name"@)] == Node::Text(plugin + ".plugin"@)
            &&& project[setting_path(BUNDLE_CONFIGURATION_KEY@, "name"@)] == Node::Text(plugin)
            &&& project[setting_path(BUNDLE_CONFIGURATION_KEY@, "productName"@)] == Node::Text(plugin)
        }),
{
    let lib_name = "lib"@ + plugin + ".a"@;
    let lib_path = "target/"@ + target + "/release/lib"@ + plugin + ".a"@;
    let named = with_setting(paths, LIB_KEY@, "name"@, lib_name);
    let placed = with_setting(named, LIB_KEY@, "path"@, lib_path);
    let bundled = with_setting(placed, BUNDLE_KEY@, "name"@, plugin + ".plugin"@);
    let configured = with_setting(bundled, BUNDLE_CONFIGURATION_KEY@, "name"@, plugin);
    lemma_setting_keeps_objects(paths, LIB_KEY@, "name"@, lib_name, LIB_KEY@);
    lemma_setting_keeps_objects(paths, LIB_KEY@, "name"@, lib_name, BUNDLE_KEY@);
    lemma_setting_keeps_objects(paths, LIB_KEY@, "name"@, lib_name, BUNDLE_CONFIGURATION_KEY@);
    lemma_setting_keeps_objects(named, LIB_KEY@, "path"@, lib_path, BUNDLE_KEY@);
    lemma_setting_keeps_objects(named, LIB_KEY@, "path"@, lib_path, BUNDLE_CONFIGURATION_KEY@);
    lemma_setting_keeps_objects(placed, BUNDLE_KEY@, "name"@, plugin + ".plugin"@, BUNDLE_CONFIGURATION_KEY@);
    lemma_setting_keeps_objects(
        bundled,
        BUNDLE_CONFIGURATION_KEY@,
        "name"@,
        plugin,
        BUNDLE_CONFIGURATION_KEY@,
    );
    reveal_strlit("name");
    reveal_strlit("path");
    reveal_strlit("productName");
    reveal_strlit("9E4ACB8B299AC54200A2B1CE");
    reveal_strlit("E23329D61DF092AD0002B4FE");
    reveal_strlit("E23329D51DF092AD0002B4FE");
    assert("name"@ != "path"@) by {
        assert("name"@[0] != "path"@[0]);
    }
    assert("name"@ != "productName"@) by {
        assert("name"@[0] != "productName"@[0]);
    }
    assert(LIB_KEY@ != BUNDLE_KEY@) by {
        assert(LIB_KEY@[0] != BUNDLE_KEY@[0]);
    }
    assert(LIB_KEY@ != BUNDLE_CONFIGURATION_KEY@) by {
        assert(LIB_KEY@[0] != BUNDLE_CONFIGURATION_KEY@[0]);
    }
    assert(BUNDLE_KEY@ != BUNDLE_CONFIGURATION_KEY@) by {
        assert(BUNDLE_KEY@[7] != BUNDLE_CONFIGURATION_KEY@[7]);
    }
    let a = setting_path(LIB_KEY@, "name"@);
    let b = setting_path(LIB_KEY@, "path"@);
    let c = setting_path(BUNDLE_KEY@, "name"@);
    let d = setting_path(BUNDLE_CONFIGURATION_KEY@, "name"@);
    let e = setting_path(BUNDLE_CONFIGURATION_KEY@, "productName"@);
    assert(!b.is_prefix_of(a) && b != a) by {
        assert(b[2] != a[2]);
    }
    assert(!c.is_prefix_of(a) && c != a && !c.is_prefix_of(b) && c != b) by {
        assert(c[1] != a[1]);
        assert(c[1] != b[1]);
    }
    assert(!d.is_prefix_of(a) && d != a && !d.is_prefix_of(b) && d != b && !d.is_prefix_of(c) && d != c) by {
        assert(d[1] != a[1]);
        assert(d[1] != b[1]);
        assert(d[1] != c[1]);
    }
    assert(!e.is_prefix_of(a) && e != a && !e.is_prefix_of(b) && e != b && !e.is_prefix_of(c) && e != c
        && !e.is_prefix_of(d) && e != d) by {
        assert(e[1] != a[1]);
        assert(e[1] != b[1]);
        assert(e[1] != c[1]);
        assert(e[2] != d[2]);
    }
}

/// Makes a project template the project of `plugin`, built for `target`.
/// Every setting is set whose project object the document has. The answer
/// tells whether the document had all three objects, so that all settings
/// are set.
pub fn write_xcodeproj(project: &mut Value, target: &str, plugin: &str) -> (done: bool)
    ensures
        done <==> is_template(value_paths(*old(project))),
        value_paths(*final(project)) == project_of(value_paths(*old(project)), target@, plugin@),
{
    let ghost paths = value_paths(*project);
    let ghost lib_name = "lib"@ + plugin@ + ".a"@;
    let ghost lib_path = "target/"@ + target@ + "/release/lib"@ + plugin@ + ".a"@;
    let ghost named = with_setting(paths, LIB_KEY@, "name"@, lib_name);
    let ghost placed = with_setting(named, LIB_KEY@, "path"@, lib_path);
    let ghost bundled = with_setting(placed, BUNDLE_KEY@, "name"@, plugin@ + ".plugin"@);
    let ghost configured = with_setting(bundled, BUNDLE_CONFIGURATION_KEY@, "name"@, plugin@);
    proof {
        lemma_setting_keeps_objects(paths, LIB_KEY@, "name"@, lib_name, LIB_KEY@);
        lemma_setting_keeps_objects(paths, LIB_KEY@, "name"@, lib_name, BUNDLE_KEY@);
        lemma_setting_keeps_objects(paths, LIB_KEY@, "name"@, lib_name, BUNDLE_CONFIGURATION_KEY@);
        lemma_setting_keeps_objects(named, LIB_KEY@, "path"@, lib_path, BUNDLE_KEY@);
        lemma_setting_keeps_objects(named, LIB_KEY@, "path"@, lib_path, BUNDLE_CONFIGURATION_KEY@);
        lemma_setting_keeps_objects(
            placed,
            BUNDLE_KEY@,
            "name"@,
            plugin@ + ".plugin"@,
            BUNDLE_CONFIGURATION_KEY@,
        );
        lemma_setting_keeps_objects(
            bundled,
            BUNDLE_CONFIGURATION_KEY@,
            "name"@,
            plugin@,
            BUNDLE_CONFIGURATION_KEY@,
        );
    }
    let lib_named = set_object_text(project, LIB_KEY, "name", static_library_name(plugin));
    let lib_placed = set_object_text(project, LIB_KEY, "path", static_library_path(target, plugin));
    let bundle_named = set_object_text(project, BUNDLE_KEY, "name", bundle_name(plugin));
    let target_named = set_object_text(project, BUNDLE_CONFIGURATION_KEY, "name", String::from_str(plugin));
    let product_named = set_object_text(
        project,
        BUNDLE_CONFIGURATION_KEY,
        "productName",
        String::from_str(plugin),
    );
    lib_named && lib_placed && bundle_named && target_named && product_named
}

} // verus!
