//! The plugin registry: the cache of known plugins, the index from class
//! identifiers to plugins, and the reference counts of loaded modules.

use vstd::prelude::*;
use vstd::string::*;
use crate::cache::{cache_of_text, cache_text, read_cache, render_cache};
use crate::error::{Error, ErrorKind};
use crate::guid::{guid_text, GUID};
use crate::instance::{Instance, InstanceState, InstanceView};
use crate::plugin::{dispose_calls, get_identifier_from_path, path_identifier, ClassInfo, ClassInfoView, ModuleCall, Plugin, PluginInfo, PluginInfoView, PluginView};
use crate::text::{lowercase, str_eq, to_ascii_lowercase, push_char};
use crate::strmap::{distinct_keys, has_key, lemma_with_entry, lemma_without_key, position, value_of, with_entry, without_key, StrMap};

verus! {

/// What the index knows of one class: the plugin that exposes it and the
/// class itself.
pub struct ClassMapEntry {
    pub plugin_info: PluginInfo,
    pub class_info: ClassInfo,
}

/// What a [`ClassMapEntry`] holds.
pub struct ClassMapEntryView {
    pub plugin_info: PluginInfoView,
    pub class_info: ClassInfoView,
}

impl View for ClassMapEntry {
    type V = ClassMapEntryView;

    open spec fn view(&self) -> ClassMapEntryView {
        ClassMapEntryView { plugin_info: self.plugin_info@, class_info: self.class_info@ }
    }
}

/// A loaded module together with the number of instances that hold it.
pub struct PluginRef {
    pub plugin: Plugin,
    pub ref_counter: usize,
}

/// What a [`PluginRef`] holds.
pub struct PluginRefView {
    pub plugin: PluginView,
    pub ref_counter: usize,
}

impl View for PluginRef {
    type V = PluginRefView;

    open spec fn view(&self) -> PluginRefView {
        PluginRefView { plugin: self.plugin@, ref_counter: self.ref_counter }
    }
}

/// The index after the first `n` classes of a plugin were filed, each under
/// the text form of its identifier. A class filed later takes the place of
/// one filed earlier under the same identifier.
pub open spec fn with_classes(
    index: Seq<(Seq<char>, ClassMapEntryView)>,
    plugin: PluginInfoView,
    n: int,
) -> Seq<(Seq<char>, ClassMapEntryView)>
    decreases n,
{
    if n <= 0 {
        index
    } else {
        with_entry(
            with_classes(index, plugin, n - 1),
            guid_text(plugin.classes[n - 1].cid),
            ClassMapEntryView { plugin_info: plugin, class_info: plugin.classes[n - 1] },
        )
    }
}

/// The index of all classes of all plugins of a cache, filed plugin by
/// plugin in the order of the cache.
pub open spec fn class_index(cache: Seq<(Seq<char>, PluginInfoView)>) -> Seq<(Seq<char>, ClassMapEntryView)>
    decreases cache.len(),
{
    if cache.len() == 0 {
        seq![]
    } else {
        with_classes(
            class_index(cache.drop_last()),
            cache.last().1,
            cache.last().1.classes.len() as int,
        )
    }
}

/// Whether an entry of the index stands for a class of a plugin of the
/// cache, filed under the text form of the class's identifier.
pub open spec fn from_cache(
    cache: Seq<(Seq<char>, PluginInfoView)>,
    key: Seq<char>,
    entry: ClassMapEntryView,
) -> bool {
    exists|i: int, k: int|
        0 <= i < cache.len() && 0 <= k < (#[trigger] cache[i]).1.classes.len() && entry.plugin_info
            == cache[i].1 && entry.class_info == (#[trigger] cache[i].1.classes[k]) && key
            == guid_text(entry.class_info.cid)
}

proof fn lemma_with_classes(
    cache: Seq<(Seq<char>, PluginInfoView)>,
    index: Seq<(Seq<char>, ClassMapEntryView)>,
    at: int,
    n: int,
)
    requires
        distinct_keys(index),
        0 <= at < cache.len(),
        0 <= n <= cache[at].1.classes.len(),
        forall|key: Seq<char>| #[trigger]
            has_key(index, key) ==> from_cache(cache, key, value_of(index, key)),
    ensures
        distinct_keys(with_classes(index, cache[at].1, n)),
        forall|key: Seq<char>| has_key(index, key) ==> #[trigger] has_key(
            with_classes(index, cache[at].1, n),
            key,
        ),
        forall|k: int| 0 <= k < n ==> has_key(
            with_classes(index, cache[at].1, n),
            guid_text((#[trigger] cache[at].1.classes[k]).cid),
        ),
        forall|key: Seq<char>| #[trigger]
            has_key(with_classes(index, cache[at].1, n), key) ==> from_cache(
                cache,
                key,
                value_of(with_classes(index, cache[at].1, n), key),
            ),
    decreases n,
{
    if n > 0 {
        lemma_with_classes(cache, index, at, n - 1);
        let plugin = cache[at].1;
        let before = with_classes(index, plugin, n - 1);
        let key = guid_text(plugin.classes[n - 1].cid);
        let entry = ClassMapEntryView { plugin_info: plugin, class_info: plugin.classes[n - 1] };
        lemma_with_entry(before, key, entry);
        let after = with_classes(index, plugin, n);
        assert(after == with_entry(before, key, entry));
        assert forall|other: Seq<char>| #[trigger] has_key(after, other) implies from_cache(
            cache,
            other,
            value_of(after, other),
        ) by {
            if other == key {
                assert(cache[at].1.classes[n - 1] == entry.class_info);
            } else {
                assert(has_key(before, other));
            }
        }
        assert forall|k: int| 0 <= k < n implies has_key(
            after,
            guid_text((#[trigger] cache[at].1.classes[k]).cid),
        ) by {
            if k < n - 1 {
                let other = guid_text(cache[at].1.classes[k].cid);
                assert(has_key(before, other));
            }
        }
        assert forall|other: Seq<char>| has_key(index, other) implies #[trigger] has_key(
            after,
            other,
        ) by {
            assert(has_key(before, other));
        }
    }
}

/// The index is complete and sound: every class of every plugin of the
/// cache has its identifier in the index, no identifier is filed twice, and
/// every entry of the index stands for a class of a plugin of the cache.
pub proof fn lemma_class_index(cache: Seq<(Seq<char>, PluginInfoView)>)
    ensures
        distinct_keys(class_index(cache)),
        forall|i: int, k: int|
            0 <= i < cache.len() && 0 <= k < (#[trigger] cache[i]).1.classes.len() ==> has_key(
                class_index(cache),
                guid_text((#[trigger] cache[i].1.classes[k]).cid),
            ),
        forall|key: Seq<char>| #[trigger]
            has_key(class_index(cache), key) ==> from_cache(
                cache,
                key,
                value_of(class_index(cache), key),
            ),
    decreases cache.len(),
{
    if cache.len() > 0 {
        let init = cache.drop_last();
        let last = cache.len() - 1;
        lemma_class_index(init);
        let index = class_index(init);
        assert forall|key: Seq<char>| #[trigger] has_key(index, key) implies from_cache(
            cache,
            key,
            value_of(index, key),
        ) by {
            let entry = value_of(index, key);
            assert(from_cache(init, key, entry));
            let (i, k) = choose|i: int, k: int|
                0 <= i < init.len() && 0 <= k < (#[trigger] init[i]).1.classes.len()
                    && entry.plugin_info == init[i].1 && entry.class_info == (
                #[trigger] init[i].1.classes[k]) && key == guid_text(entry.class_info.cid);
            assert(cache[i] == init[i]);
            assert(entry.class_info == cache[i].1.classes[k]);
        }
        lemma_with_classes(cache, index, last, cache[last].1.classes.len() as int);
        assert(cache.last() == cache[last]);
        assert forall|i: int, k: int|
            0 <= i < cache.len() && 0 <= k < (#[trigger] cache[i]).1.classes.len() implies has_key(
            class_index(cache),
            guid_text((#[trigger] cache[i].1.classes[k]).cid),
        ) by {
            if i < last {
                assert(cache[i] == init[i]);
                assert(has_key(index, guid_text(init[i].1.classes[k].cid)));
            }
        }
    }
}

/// The number of instances that hold the plugin; none if it is not loaded.
pub open spec fn ref_count(loaded: Seq<(Seq<char>, PluginRefView)>, plugin_id: Seq<char>) -> nat {
    if has_key(loaded, plugin_id) {
        value_of(loaded, plugin_id).ref_counter as nat
    } else {
        0
    }
}

/// The loaded set after one more instance took hold of a plugin in it.
pub open spec fn referenced(loaded: Seq<(Seq<char>, PluginRefView)>, plugin_id: Seq<char>) -> Seq<(Seq<char>, PluginRefView)>
    recommends
        has_key(loaded, plugin_id),
{
    with_entry(
        loaded,
        plugin_id,
        PluginRefView {
            plugin: value_of(loaded, plugin_id).plugin,
            ref_counter: (value_of(loaded, plugin_id).ref_counter + 1) as usize,
        },
    )
}

/// The loaded set after a freshly loaded plugin joined it, held once.
pub open spec fn registered(
    loaded: Seq<(Seq<char>, PluginRefView)>,
    plugin_id: Seq<char>,
    plugin: PluginView,
) -> Seq<(Seq<char>, PluginRefView)> {
    with_entry(loaded, plugin_id, PluginRefView { plugin, ref_counter: 1 })
}

/// The loaded set after one instance let go of a plugin: the count drops by
/// one, and the plugin leaves the set with its last instance.
pub open spec fn unreferenced(loaded: Seq<(Seq<char>, PluginRefView)>, plugin_id: Seq<char>) -> Seq<(Seq<char>, PluginRefView)> {
    if !has_key(loaded, plugin_id) {
        loaded
    } else if value_of(loaded, plugin_id).ref_counter > 1 {
        with_entry(
            loaded,
            plugin_id,
            PluginRefView {
                plugin: value_of(loaded, plugin_id).plugin,
                ref_counter: (value_of(loaded, plugin_id).ref_counter - 1) as usize,
            },
        )
    } else {
        without_key(loaded, plugin_id)
    }
}

/// The calls by which the module is disposed when an instance lets go of
/// it: none unless that instance was the last to hold a module whose
/// library is still open.
pub open spec fn unload_calls(loaded: Seq<(Seq<char>, PluginRefView)>, plugin_id: Seq<char>) -> Seq<ModuleCall> {
    if has_key(loaded, plugin_id) && value_of(loaded, plugin_id).ref_counter <= 1 && value_of(
        loaded,
        plugin_id,
    ).plugin.lib {
        dispose_calls(value_of(loaded, plugin_id).plugin.exit_fn)
    } else {
        seq![]
    }
}

/// What has to happen before an instance of a class can be asked for.
pub enum RefStep {
    /// The plugin is loaded and one more reference to it was taken.
    Ready,
    /// The plugin at this path must be loaded first, and handed over with
    /// [`Registry::add_plugin`].
    Load(String),
}

/// What is asked of the factory of a loaded plugin.
pub struct CreateRequest {
    /// The identity of the plugin that owns the class.
    pub plugin_id: String,
    /// The identifier to hand to the factory.
    pub cid: GUID,
    /// The path of the plugin's library, if it has to be loaded before the
    /// factory can be asked.
    pub load: Option<String>,
}

/// The registry of plugins.
pub struct Registry {
    cache: StrMap<PluginInfo>,
    loaded_plugins: StrMap<PluginRef>,
    class_map: StrMap<ClassMapEntry>,
}

impl Registry {
    /// The known plugins, each under its identity.
    pub closed spec fn cache(&self) -> Seq<(Seq<char>, PluginInfoView)> {
        self.cache@
    }

    /// The loaded modules with their reference counts, each under the
    /// identity of its plugin.
    pub closed spec fn loaded(&self) -> Seq<(Seq<char>, PluginRefView)> {
        self.loaded_plugins@
    }

    /// The index from the text form of a class identifier to the class.
    pub closed spec fn classes(&self) -> Seq<(Seq<char>, ClassMapEntryView)> {
        self.class_map@
    }

    /// No identity occurs twice in the cache, in the loaded set or in the index.
    pub open spec fn wf(&self) -> bool {
        &&& distinct_keys(self.cache())
        &&& distinct_keys(self.loaded())
        &&& distinct_keys(self.classes())
    }

    pub fn new() -> (r: Self)
        ensures
            r.wf(),
            r.cache() == Seq::<(Seq<char>, PluginInfoView)>::empty(),
            r.loaded() == Seq::<(Seq<char>, PluginRefView)>::empty(),
            r.classes() == Seq::<(Seq<char>, ClassMapEntryView)>::empty(),
    {
        Self { cache: StrMap::new(), loaded_plugins: StrMap::new(), class_map: StrMap::new() }
    }

    /// Confirms that the registry is well formed, which it always is.
    pub fn validate(&self)
        ensures
            self.wf(),
    {
        proof {
            use_type_invariant(&self.cache);
            use_type_invariant(&self.loaded_plugins);
            use_type_invariant(&self.class_map);
        }
    }

    /// Forgets everything: the cache, the loaded set and the index.
    pub fn dispose(&mut self)
        ensures
            final(self).wf(),
            final(self).cache() == Seq::<(Seq<char>, PluginInfoView)>::empty(),
            final(self).loaded() == Seq::<(Seq<char>, PluginRefView)>::empty(),
            final(self).classes() == Seq::<(Seq<char>, ClassMapEntryView)>::empty(),
    {
        self.cache.clear();
        self.loaded_plugins.clear();
        self.class_map.clear();
    }

    /// Takes over the cache that a scan produced and files every class of
    /// every plugin in the index.
    pub fn init(&mut self, cache: StrMap<PluginInfo>)
        ensures
            final(self).wf(),
            final(self).cache() == cache@,
            final(self).loaded() == old(self).loaded(),
            final(self).classes() == class_index(cache@),
    {
        proof {
            use_type_invariant(&self.loaded_plugins);
        }
        self.cache = cache;
        self.class_map.clear();
        let ghost all = self.cache@;
        let mut i: usize = 0;
        assert(all.take(0) =~= seq![]);
        assert(self.class_map@ =~= class_index(all.take(0)));
        while i < self.cache.len()
            invariant
                i <= self.cache@.len(),
                all == self.cache@,
                self.loaded_plugins@ == old(self).loaded_plugins@,
                self.class_map@ == class_index(all.take(i as int)),
            decreases self.cache@.len() - i,
        {
            let plugin_info = self.cache.value_at(i);
            let ghost base = self.class_map@;
            let mut k: usize = 0;
            while k < plugin_info.classes.len()
                invariant
                    k <= plugin_info.classes.len(),
                    i < all.len(),
                    all == self.cache@,
                    plugin_info@ == all[i as int].1,
                    self.loaded_plugins@ == old(self).loaded_plugins@,
                    self.class_map@ == with_classes(base, plugin_info@, k as int),
                decreases plugin_info.classes.len() - k,
            {
                let class_info = &plugin_info.classes[k];
                let entry = ClassMapEntry {
                    plugin_info: plugin_info.duplicate(),
                    class_info: class_info.duplicate(),
                };
                let uid = class_info.cid.to_string();
                self.class_map.insert(uid, entry);
                k += 1;
            }
            proof {
                let next = all.take(i + 1);
                assert(next.drop_last() =~= all.take(i as int));
                assert(next.last() == all[i as int]);
            }
            i += 1;
        }
        proof {
            assert(all.take(all.len() as int) =~= all);
            use_type_invariant(&self.cache);
            use_type_invariant(&self.class_map);
        }
    }

    /// The class that is filed under a class identifier.
    pub fn get_class(&self, class_id: &str) -> (r: Result<&ClassMapEntry, Error>)
        ensures
            match r {
                Ok(entry) => has_key(self.classes(), class_id@) && entry@ == value_of(
                    self.classes(),
                    class_id@,
                ),
                Err(e) => !has_key(self.classes(), class_id@) && e.is(
                    ErrorKind::InvalidIdentifier,
                    "failed to create class instance",
                ),
            },
    {
        match self.class_map.get(class_id) {
            Some(entry) => Ok(entry),
            None => Err(Error::new(ErrorKind::InvalidIdentifier, "failed to create class instance")),
        }
    }

    /// The number of instances that hold the plugin.
    pub fn ref_counter(&self, plugin_id: &str) -> (n: usize)
        ensures
            n == ref_count(self.loaded(), plugin_id@),
    {
        match self.loaded_plugins.get(plugin_id) {
            Some(r) => r.ref_counter,
            None => 0,
        }
    }

    /// Whether the plugin is in the loaded set.
    pub fn is_loaded(&self, plugin_id: &str) -> (r: bool)
        ensures
            r == has_key(self.loaded(), plugin_id@),
    {
        self.loaded_plugins.contains_key(plugin_id)
    }

    /// Takes a reference to a plugin for a new instance.
    ///
    /// A loaded plugin is held once more. A plugin that is known but not
    /// loaded has to be loaded by the caller first: nothing changes, and the
    /// path of its library is returned. An identity that the cache does not
    /// know is refused, and so is a reference beyond what the counter holds.
    pub fn ref_plugin(&mut self, plugin_id: &str) -> (r: Result<RefStep, Error>)
        ensures
            final(self).wf(),
            final(self).cache() == old(self).cache(),
            final(self).classes() == old(self).classes(),
            match r {
                Ok(RefStep::Ready) => has_key(old(self).loaded(), plugin_id@) && final(self).loaded() == referenced(old(self).loaded(), plugin_id@) && ref_count(
                    old(self).loaded(),
                    plugin_id@,
                ) < usize::MAX,
                Ok(RefStep::Load(path)) => !has_key(old(self).loaded(), plugin_id@) && has_key(
                    old(self).cache(),
                    plugin_id@,
                ) && path@ == value_of(old(self).cache(), plugin_id@).path && final(self).loaded()
                    == old(self).loaded(),
                Err(e) => final(self).loaded() == old(self).loaded() && if has_key(
                    old(self).loaded(),
                    plugin_id@,
                ) {
                    ref_count(old(self).loaded(), plugin_id@) == usize::MAX && e.is(
                        ErrorKind::PreconditionFailed,
                        "too many references to plugin",
                    )
                } else {
                    !has_key(old(self).cache(), plugin_id@) && e.is(
                        ErrorKind::InvalidIdentifier,
                        "invalid plugin identifier",
                    )
                },
            },
    {
        proof {
            use_type_invariant(&self.cache);
            use_type_invariant(&self.loaded_plugins);
            use_type_invariant(&self.class_map);
        }
        match self.loaded_plugins.get(plugin_id) {
            Some(plugin_ref) => {
                if plugin_ref.ref_counter == usize::MAX {
                    return Err(
                        Error::new(ErrorKind::PreconditionFailed, "too many references to plugin"),
                    );
                }
                let held = PluginRef {
                    plugin: plugin_ref.plugin.duplicate(),
                    ref_counter: plugin_ref.ref_counter + 1,
                };
                self.loaded_plugins.insert(plugin_id.to_owned(), held);
                Ok(RefStep::Ready)
            },
            None => match self.cache.get(plugin_id) {
                Some(plugin_info) => Ok(RefStep::Load(plugin_info.path.clone())),
                None => Err(Error::new(ErrorKind::InvalidIdentifier, "invalid plugin identifier")),
            },
        }
    }

    /// Takes a freshly loaded plugin into the loaded set, held once.
    pub fn add_plugin(&mut self, plugin_id: &str, plugin: Plugin)
        ensures
            final(self).wf(),
            final(self).cache() == old(self).cache(),
            final(self).classes() == old(self).classes(),
            final(self).loaded() == registered(old(self).loaded(), plugin_id@, plugin@),
    {
        proof {
            use_type_invariant(&self.cache);
            use_type_invariant(&self.class_map);
        }
        self.loaded_plugins.insert(plugin_id.to_owned(), PluginRef { plugin, ref_counter: 1 });
    }

    /// Lets go of one reference to a plugin. With the last reference the
    /// plugin leaves the loaded set and is disposed: the calls to make are
    /// returned in their order.
    pub fn unref_plugin(&mut self, plugin_id: &str) -> (calls: Vec<ModuleCall>)
        ensures
            final(self).wf(),
            final(self).cache() == old(self).cache(),
            final(self).classes() == old(self).classes(),
            final(self).loaded() == unreferenced(old(self).loaded(), plugin_id@),
            calls@ == unload_calls(old(self).loaded(), plugin_id@),
    {
        proof {
            use_type_invariant(&self.cache);
            use_type_invariant(&self.loaded_plugins);
            use_type_invariant(&self.class_map);
        }
        let counter = match self.loaded_plugins.get(plugin_id) {
            Some(plugin_ref) => plugin_ref.ref_counter,
            None => {
                return Vec::new();
            },
        };
        if counter > 1 {
            match self.loaded_plugins.get(plugin_id) {
                Some(plugin_ref) => {
                    let held = PluginRef {
                        plugin: plugin_ref.plugin.duplicate(),
                        ref_counter: counter - 1,
                    };
                    self.loaded_plugins.insert(plugin_id.to_owned(), held);
                },
                None => {},
            }
            Vec::new()
        } else {
            match self.loaded_plugins.remove(plugin_id) {
                Some(mut removed_plugin) => removed_plugin.plugin.dispose(),
                None => Vec::new(),
            }
        }
    }

    /// Prepares the creation of an instance of a class.
    ///
    /// The class is looked up in the index and a reference to its plugin is
    /// taken, unless the plugin has to be loaded first. A class that the
    /// index does not know is refused with nothing changed.
    pub fn create_class_instance(&mut self, class_id: &str) -> (r: Result<CreateRequest, Error>)
        ensures
            final(self).wf(),
            final(self).cache() == old(self).cache(),
            final(self).classes() == old(self).classes(),
            !has_key(old(self).classes(), class_id@) ==> final(self).loaded() == old(self).loaded()
                && (r matches Err(e) && e.is(
                ErrorKind::InvalidIdentifier,
                "failed to create class instance",
            )),
            has_key(old(self).classes(), class_id@) ==> {
                let entry = value_of(old(self).classes(), class_id@);
                let plugin_id = entry.plugin_info.id;
                match r {
                    Ok(request) => request.plugin_id@ == plugin_id && request.cid@
                        == entry.class_info.cid && match request.load {
                        None => has_key(old(self).loaded(), plugin_id) && final(self).loaded()
                            == referenced(old(self).loaded(), plugin_id),
                        Some(path) => !has_key(old(self).loaded(), plugin_id) && has_key(
                            old(self).cache(),
                            plugin_id,
                        ) && path@ == value_of(old(self).cache(), plugin_id).path && final(self).loaded() == old(self).loaded(),
                    },
                    Err(e) => final(self).loaded() == old(self).loaded() && if has_key(
                        old(self).loaded(),
                        plugin_id,
                    ) {
                        ref_count(old(self).loaded(), plugin_id) == usize::MAX && e.kind
                            == ErrorKind::PreconditionFailed
                    } else {
                        !has_key(old(self).cache(), plugin_id) && e.kind
                            == ErrorKind::InvalidIdentifier
                    },
                }
            },
    {
        proof {
            use_type_invariant(&self.cache);
            use_type_invariant(&self.loaded_plugins);
            use_type_invariant(&self.class_map);
        }
        let plugin_id: String;
        let class_guid: GUID;
        match self.get_class(class_id) {
            Ok(entry) => {
                plugin_id = entry.plugin_info.id.clone();
                class_guid = entry.class_info.cid;
            },
            Err(e) => {
                return Err(e);
            },
        }
        match self.ref_plugin(plugin_id.as_str()) {
            Ok(RefStep::Ready) => Ok(CreateRequest { plugin_id, cid: class_guid, load: None }),
            Ok(RefStep::Load(path)) => Ok(
                CreateRequest { plugin_id, cid: class_guid, load: Some(path) },
            ),
            Err(e) => Err(e),
        }
    }

    /// Concludes the creation of an instance once the factory has answered.
    ///
    /// The instance is made if the factory succeeded, handed out an object,
    /// and the object offers the component capability. Otherwise the
    /// reference that was taken for the instance is given back, and with it
    /// the calls that dispose the plugin if nothing else holds it.
    pub fn finish_class_instance(
        &mut self,
        request: &CreateRequest,
        class_id: &str,
        status: i32,
        object_present: bool,
        component_present: bool,
    ) -> (r: Result<Instance, (Error, Vec<ModuleCall>)>)
        ensures
            final(self).wf(),
            final(self).cache() == old(self).cache(),
            final(self).classes() == old(self).classes(),
            match r {
                Ok(instance) => status == 0 && object_present && component_present && final(self).loaded() == old(self).loaded() && instance@ == (InstanceView {
                    class_id: class_id@,
                    plugin: request.plugin_id@,
                    state: InstanceState::Created,
                }),
                Err((e, calls)) => final(self).loaded() == unreferenced(
                    old(self).loaded(),
                    request.plugin_id@,
                ) && calls@ == unload_calls(old(self).loaded(), request.plugin_id@) && if status
                    == 0 && object_present {
                    !component_present && e.kind == ErrorKind::InterfaceNotSupported
                } else {
                    e.kind == ErrorKind::CreationFailed
                },
            },
    {
        proof {
            use_type_invariant(&self.cache);
            use_type_invariant(&self.loaded_plugins);
            use_type_invariant(&self.class_map);
        }
        if status != 0 || !object_present {
            let calls = self.unref_plugin(request.plugin_id.as_str());
            return Err((Error::new(ErrorKind::CreationFailed, "failed to create instance"), calls));
        }
        match Instance::new(request.plugin_id.as_str(), component_present, class_id) {
            Ok(instance) => Ok(instance),
            Err(e) => {
                let calls = self.unref_plugin(request.plugin_id.as_str());
                Err((e, calls))
            },
        }
    }

    /// Gives back the reference that an instance held. The instance is
    /// consumed; with the last instance of a plugin the plugin is unloaded
    /// and the calls that dispose it are returned.
    pub fn unref_class_instance(&mut self, instance: Instance) -> (r: Result<Vec<ModuleCall>, Error>)
        ensures
            final(self).wf(),
            final(self).cache() == old(self).cache(),
            final(self).classes() == old(self).classes(),
            match r {
                Ok(calls) => has_key(old(self).classes(), instance.class_id@) && ({
                    let plugin_id = value_of(old(self).classes(), instance.class_id@).plugin_info.id;
                    final(self).loaded() == unreferenced(old(self).loaded(), plugin_id) && calls@
                        == unload_calls(old(self).loaded(), plugin_id)
                }),
                Err(e) => !has_key(old(self).classes(), instance.class_id@) && final(self).loaded()
                    == old(self).loaded() && e.is(
                    ErrorKind::InvalidIdentifier,
                    "failed to create class instance",
                ),
            },
    {
        proof {
            use_type_invariant(&self.cache);
            use_type_invariant(&self.loaded_plugins);
            use_type_invariant(&self.class_map);
        }
        let plugin_id: String;
        match self.get_class(instance.class_id()) {
            Ok(entry) => {
                plugin_id = entry.plugin_info.id.clone();
            },
            Err(e) => {
                return Err(e);
            },
        }
        Ok(self.unref_plugin(plugin_id.as_str()))
    }
}

/// Taking a reference for a new instance and giving it back at once leaves
/// the reference count of the plugin where it was. If the plugin had to be
/// loaded for the instance, giving the reference back unloads it again: it
/// leaves the loaded set, and the calls that dispose it are asked for.
pub proof fn lemma_create_then_release(
    loaded: Seq<(Seq<char>, PluginRefView)>,
    plugin_id: Seq<char>,
    plugin: PluginView,
)
    requires
        distinct_keys(loaded),
        ref_count(loaded, plugin_id) < usize::MAX,
    ensures
        has_key(loaded, plugin_id) ==> ref_count(
            unreferenced(referenced(loaded, plugin_id), plugin_id),
            plugin_id,
        ) == ref_count(loaded, plugin_id),
        has_key(loaded, plugin_id) && ref_count(loaded, plugin_id) >= 1 ==> unload_calls(
            referenced(loaded, plugin_id),
            plugin_id,
        ) == Seq::<ModuleCall>::empty(),
        !has_key(loaded, plugin_id) ==> unreferenced(
            registered(loaded, plugin_id, plugin),
            plugin_id,
        ) == loaded,
        !has_key(loaded, plugin_id) ==> ref_count(
            unreferenced(registered(loaded, plugin_id, plugin), plugin_id),
            plugin_id,
        ) == 0,
        !has_key(loaded, plugin_id) && plugin.lib ==> unload_calls(
            registered(loaded, plugin_id, plugin),
            plugin_id,
        ) == dispose_calls(plugin.exit_fn),
{
    if has_key(loaded, plugin_id) {
        let held = PluginRefView {
            plugin: value_of(loaded, plugin_id).plugin,
            ref_counter: (value_of(loaded, plugin_id).ref_counter + 1) as usize,
        };
        lemma_with_entry(loaded, plugin_id, held);
        let more = referenced(loaded, plugin_id);
        if held.ref_counter > 1 {
            let back = PluginRefView {
                plugin: held.plugin,
                ref_counter: (held.ref_counter - 1) as usize,
            };
            lemma_with_entry(more, plugin_id, back);
        } else {
            lemma_without_key(more, plugin_id);
        }
    } else {
        let held = PluginRefView { plugin, ref_counter: 1 };
        lemma_with_entry(loaded, plugin_id, held);
        let more = registered(loaded, plugin_id, plugin);
        assert(more == loaded.push((plugin_id, held)));
        lemma_without_key(more, plugin_id);
        let p = position(more, plugin_id);
        assert(more[loaded.len() as int].0 == plugin_id);
        assert(p == loaded.len());
        assert(more.remove(p) =~= loaded);
    }
}

/// A plugin file that a scan has to look at: its path and its modification
/// time in minutes, zero where the time could not be had.
pub struct Candidate {
    pub path: String,
    pub file_time: i64,
}

/// What a [`Candidate`] holds.
pub struct CandidateView {
    pub path: Seq<char>,
    pub file_time: i64,
}

impl View for Candidate {
    type V = CandidateView;

    open spec fn view(&self) -> CandidateView {
        CandidateView { path: self.path@, file_time: self.file_time }
    }
}

/// What a sequence of candidates holds.
pub open spec fn candidate_views(candidates: Seq<Candidate>) -> Seq<CandidateView> {
    Seq::new(candidates.len(), |i: int| candidates[i]@)
}

/// How far a scan has come.
#[derive(Clone, Copy, Debug, PartialEq, Eq, Structural)]
pub enum ScanStage {
    /// Candidates are looked at.
    Examining,
    /// A plugin was handed out to be loaded and read.
    Probing,
    /// The cache was handed out to be written after a change.
    Writing,
    /// The cache was handed out to be written a last time.
    Flushing,
    /// The scan is over.
    Finished,
}

/// What came of the step that a scan asked for last.
pub enum ScanReply {
    /// Nothing was asked for yet.
    Begin,
    /// The metadata of the plugin that was to be loaded; nothing if it
    /// could not be loaded.
    Probed(Option<PluginInfo>),
    /// The cache file was written, or could not be.
    Written,
}

/// What a scan wants next.
pub enum ScanStep {
    /// Load the plugin at this path, read its metadata and unload it.
    Probe(String),
    /// Write this text to the cache file.
    Write(String),
    /// The scan is over.
    Done,
}

/// Where a scan stands among its candidates: what is left of the old cache,
/// the new cache, and the candidate to look at next.
pub struct Progress {
    pub stale: Seq<(Seq<char>, PluginInfoView)>,
    pub fresh: Seq<(Seq<char>, PluginInfoView)>,
    pub next: int,
}

/// The progress after every candidate from `next` on that needs no loading
/// was dealt with. A candidate without a file time is passed over. One whose
/// identity the old cache knows with the same file time is carried over to
/// the new cache. At any other candidate the scan stops, having dropped
/// what the old cache held for it: that plugin has to be loaded.
pub open spec fn settled(candidates: Seq<CandidateView>, at: Progress) -> Progress
    decreases candidates.len() - at.next,
{
    if at.next < 0 || at.next >= candidates.len() {
        at
    } else {
        let c = candidates[at.next];
        let id = path_identifier(c.path);
        if c.file_time == 0 {
            settled(candidates, Progress { next: at.next + 1, ..at })
        } else if has_key(at.stale, id) && value_of(at.stale, id).file_time == c.file_time {
            settled(
                candidates,
                Progress {
                    stale: without_key(at.stale, id),
                    fresh: with_entry(at.fresh, id, value_of(at.stale, id)),
                    next: at.next + 1,
                },
            )
        } else {
            Progress { stale: without_key(at.stale, id), ..at }
        }
    }
}

/// Whether every candidate from `from` on is known to the old cache with
/// the file time that it has now, and no two of them have the same identity.
pub open spec fn all_unchanged(
    candidates: Seq<CandidateView>,
    stale: Seq<(Seq<char>, PluginInfoView)>,
    from: int,
) -> bool {
    &&& forall|j: int|
        from <= j < candidates.len() ==> (#[trigger] candidates[j]).file_time != 0 && has_key(
            stale,
            path_identifier(candidates[j].path),
        ) && value_of(stale, path_identifier(candidates[j].path)).file_time
            == candidates[j].file_time
    &&& forall|j: int, k: int|
        from <= j < k < candidates.len() ==> path_identifier((#[trigger] candidates[j]).path)
            != path_identifier((#[trigger] candidates[k]).path)
}

/// A scan over plugin files that have not changed loads no plugin: every
/// candidate is dealt with by carrying its cache entry over unchanged. What
/// is left of the old cache afterwards are the plugins that no candidate
/// named, and what the new cache held before is still there.
pub proof fn lemma_unchanged_scan(candidates: Seq<CandidateView>, at: Progress)
    requires
        distinct_keys(at.stale),
        distinct_keys(at.fresh),
        0 <= at.next <= candidates.len(),
        all_unchanged(candidates, at.stale, at.next),
    ensures
        settled(candidates, at).next == candidates.len(),
        distinct_keys(settled(candidates, at).stale),
        distinct_keys(settled(candidates, at).fresh),
        forall|id: Seq<char>| #[trigger]
            has_key(settled(candidates, at).stale, id) <==> has_key(at.stale, id) && forall|j: int|
                at.next <= j < candidates.len() ==> path_identifier(
                    (#[trigger] candidates[j]).path,
                ) != id,
        forall|j: int|
            at.next <= j < candidates.len() ==> has_key(
                settled(candidates, at).fresh,
                path_identifier((#[trigger] candidates[j]).path),
            ) && value_of(settled(candidates, at).fresh, path_identifier(candidates[j].path))
                == value_of(at.stale, path_identifier(candidates[j].path)),
        forall|id: Seq<char>|
            (forall|j: int|
                at.next <= j < candidates.len() ==> path_identifier(
                    (#[trigger] candidates[j]).path,
                ) != id) ==> (#[trigger] has_key(settled(candidates, at).fresh, id) == has_key(
                at.fresh,
                id,
            )) && (has_key(at.fresh, id) ==> value_of(settled(candidates, at).fresh, id)
                == value_of(at.fresh, id)),
    decreases candidates.len() - at.next,
{
    if at.next < candidates.len() {
        let c = candidates[at.next];
        let id = path_identifier(c.path);
        let carried = value_of(at.stale, id);
        let after = Progress {
            stale: without_key(at.stale, id),
            fresh: with_entry(at.fresh, id, carried),
            next: at.next + 1,
        };
        lemma_without_key(at.stale, id);
        lemma_with_entry(at.fresh, id, carried);
        assert(all_unchanged(candidates, after.stale, after.next)) by {
            assert forall|j: int| after.next <= j < candidates.len() implies (
            #[trigger] candidates[j]).file_time != 0 && has_key(
                after.stale,
                path_identifier(candidates[j].path),
            ) && value_of(after.stale, path_identifier(candidates[j].path)).file_time
                == candidates[j].file_time by {
                assert(path_identifier(candidates[at.next].path) != path_identifier(
                    candidates[j].path,
                ));
            }
        }
        lemma_unchanged_scan(candidates, after);
        let end = settled(candidates, at);
        assert(end == settled(candidates, after));
        assert forall|k: Seq<char>| #[trigger] has_key(end.stale, k) <==> has_key(at.stale, k)
            && forall|j: int|
            at.next <= j < candidates.len() ==> path_identifier((#[trigger] candidates[j]).path)
                != k by {
            if has_key(end.stale, k) {
                assert(has_key(after.stale, k));
                assert(k != id);
                assert forall|j: int| at.next <= j < candidates.len() implies path_identifier(
                    (#[trigger] candidates[j]).path,
                ) != k by {
                    if j == at.next {
                    } else {
                        assert(after.next <= j);
                    }
                }
            }
            if has_key(at.stale, k) && forall|j: int|
                at.next <= j < candidates.len() ==> path_identifier(
                    (#[trigger] candidates[j]).path,
                ) != k {
                assert(path_identifier(candidates[at.next].path) != k);
                assert(has_key(after.stale, k));
            }
        }
        assert forall|j: int| at.next <= j < candidates.len() implies has_key(
            end.fresh,
            path_identifier((#[trigger] candidates[j]).path),
        ) && value_of(end.fresh, path_identifier(candidates[j].path)) == value_of(
            at.stale,
            path_identifier(candidates[j].path),
        ) by {
            let idj = path_identifier(candidates[j].path);
            if j == at.next {
                assert forall|k: int| after.next <= k < candidates.len() implies path_identifier(
                    (#[trigger] candidates[k]).path,
                ) != idj by {
                    assert(path_identifier(candidates[at.next].path) != path_identifier(
                        candidates[k].path,
                    ));
                }
                assert(has_key(end.fresh, idj) == has_key(after.fresh, idj));
            } else {
                assert(after.next <= j);
                assert(path_identifier(candidates[at.next].path) != idj);
            }
        }
        assert forall|k: Seq<char>|
            (forall|j: int|
                at.next <= j < candidates.len() ==> path_identifier(
                    (#[trigger] candidates[j]).path,
                ) != k) implies (#[trigger] has_key(end.fresh, k) == has_key(at.fresh, k)) && (
        has_key(at.fresh, k) ==> value_of(end.fresh, k) == value_of(at.fresh, k)) by {
            assert(path_identifier(candidates[at.next].path) != k);
            assert forall|j: int| after.next <= j < candidates.len() implies path_identifier(
                (#[trigger] candidates[j]).path,
            ) != k by {
                assert(at.next <= j);
            }
            assert(has_key(end.fresh, k) == has_key(after.fresh, k));
        }
    }
}

/// `chrono::Utc::now`, printed: the current time as text. Nothing is
/// promised of it.
#[verifier::external_body]
fn utc_timestamp() -> (s: String) {
    chrono::Utc::now().to_string()
}

/// One pass over the plugin files, which brings the cache up to date.
///
/// The scan says what it needs: a plugin to be loaded and read, or the cache
/// file to be written. The caller does it and comes back with the outcome.
pub struct Scan {
    pub stale: StrMap<PluginInfo>,
    pub fresh: StrMap<PluginInfo>,
    pub candidates: Vec<Candidate>,
    pub next: usize,
    pub stage: ScanStage,
}

impl Scan {
    /// Where the scan stands.
    pub open spec fn progress(&self) -> Progress {
        Progress { stale: self.stale@, fresh: self.fresh@, next: self.next as int }
    }

    /// The position of the next candidate is within the list, and a
    /// candidate is at hand while a plugin is loaded.
    pub open spec fn wf(&self) -> bool {
        &&& self.next <= self.candidates@.len()
        &&& self.stage == ScanStage::Probing ==> self.next < self.candidates@.len()
    }

    /// Starts a scan with the old cache, as read from the text of the cache
    /// file, and the plugin files that were found. A cache file that is
    /// absent or unreadable counts as an empty cache.
    pub fn new(cache_text: Option<&str>, candidates: Vec<Candidate>) -> (scan: Self)
        ensures
            scan.wf(),
            scan.stage == ScanStage::Examining,
            scan.next == 0,
            scan.candidates == candidates,
            scan.fresh@ == Seq::<(Seq<char>, PluginInfoView)>::empty(),
            scan.stale@ == match cache_text {
                Some(text) => match cache_of_text(text@) {
                    Some(cache) => cache,
                    None => Seq::<(Seq<char>, PluginInfoView)>::empty(),
                },
                None => Seq::<(Seq<char>, PluginInfoView)>::empty(),
            },
    {
        let stale = match cache_text {
            Some(text) => match read_cache(text) {
                Ok(cache) => cache,
                Err(_) => StrMap::new(),
            },
            None => StrMap::new(),
        };
        Self { stale, fresh: StrMap::new(), candidates, next: 0, stage: ScanStage::Examining }
    }

    /// The text of the cache file for the new cache as it stands.
    pub fn write_cache(&self) -> (text: String)
        ensures
            exists|timestamp: Seq<char>| text@ == cache_text(self.fresh@, timestamp),
    {
        let timestamp = utc_timestamp();
        let text = render_cache(&self.fresh, timestamp.as_str());
        assert(text@ == cache_text(self.fresh@, timestamp@));
        text
    }

    fn examine(&mut self) -> (step: ScanStep)
        requires
            old(self).wf(),
        ensures
            final(self).wf(),
            final(self).candidates == old(self).candidates,
            final(self).progress() == settled(
                candidate_views(old(self).candidates@),
                old(self).progress(),
            ),
            final(self).next < final(self).candidates@.len() ==> final(self).stage
                == ScanStage::Probing && (step matches ScanStep::Probe(path) && path@ == final(self).candidates@[final(self).next as int].path@),
            final(self).next == final(self).candidates@.len() && final(self).stale@.len() > 0
                ==> final(self).stage == ScanStage::Flushing && (step matches ScanStep::Write(text)
                && exists|timestamp: Seq<char>| text@ == cache_text(final(self).fresh@, timestamp)),
            final(self).next == final(self).candidates@.len() && final(self).stale@.len() == 0
                ==> final(self).stage == ScanStage::Finished && step is Done,
    {
        let ghost views = candidate_views(self.candidates@);
        let ghost start = self.progress();
        while self.next < self.candidates.len()
            invariant
                self.next <= self.candidates@.len(),
                self.candidates == old(self).candidates,
                views == candidate_views(self.candidates@),
                start == old(self).progress(),
                settled(views, self.progress()) == settled(views, start),
            decreases self.candidates@.len() - self.next,
        {
            let ghost here = self.progress();
            let file_time = self.candidates[self.next].file_time;
            assert(views[self.next as int] == self.candidates@[self.next as int]@);
            if file_time == 0 {
                self.next = self.next + 1;
                continue ;
            }
            let id = get_identifier_from_path(self.candidates[self.next].path.as_str());
            match self.stale.remove(id.as_str()) {
                Some(info) => {
                    if info.file_time == file_time {
                        self.fresh.insert(id, info);
                        self.next = self.next + 1;
                        continue ;
                    }
                },
                None => {},
            }
            self.stage = ScanStage::Probing;
            let path = self.candidates[self.next].path.clone();
            assert(self.progress() == settled(views, here));
            return ScanStep::Probe(path);
        }
        if !self.stale.is_empty() {
            self.stage = ScanStage::Flushing;
            ScanStep::Write(self.write_cache())
        } else {
            self.stage = ScanStage::Finished;
            ScanStep::Done
        }
    }

    /// Takes the outcome of the last step and says what to do next.
    ///
    /// A plugin that was loaded is filed in the new cache under the identity
    /// of its path, and the cache is written at once, also where the plugin
    /// could not be loaded. When all candidates are dealt with and the old
    /// cache still holds plugins that were not found again, the cache is
    /// written a last time. A reply that answers nothing that was asked for
    /// ends the scan.
    pub fn resume(&mut self, reply: ScanReply) -> (step: ScanStep)
        requires
            old(self).wf(),
        ensures
            final(self).wf(),
            final(self).candidates == old(self).candidates,
            match (old(self).stage, reply) {
                (ScanStage::Examining, ScanReply::Begin) | (ScanStage::Writing, ScanReply::Written) => {
                    final(self).progress() == settled(
                        candidate_views(old(self).candidates@),
                        old(self).progress(),
                    )
                },
                (ScanStage::Probing, ScanReply::Probed(probed)) => {
                    final(self).stage == ScanStage::Writing && final(self).next == old(self).next
                        + 1 && final(self).stale@ == old(self).stale@ && final(self).fresh@
                        == match probed {
                        Some(info) => with_entry(
                            old(self).fresh@,
                            path_identifier(old(self).candidates@[old(self).next as int].path@),
                            info@,
                        ),
                        None => old(self).fresh@,
                    } && (step matches ScanStep::Write(text) && exists|timestamp: Seq<char>|
                        text@ == cache_text(final(self).fresh@, timestamp))
                },
                _ => final(self).stage == ScanStage::Finished && step is Done && final(self).progress() == old(self).progress(),
            },
            (old(self).stage == ScanStage::Examining && reply is Begin) || (old(self).stage
                == ScanStage::Writing && reply is Written) ==> {
                if final(self).next < final(self).candidates@.len() {
                    final(self).stage == ScanStage::Probing && (step matches ScanStep::Probe(path)
                        && path@ == final(self).candidates@[final(self).next as int].path@)
                } else if final(self).stale@.len() > 0 {
                    final(self).stage == ScanStage::Flushing && (step matches ScanStep::Write(text)
                        && exists|timestamp: Seq<char>|
                        text@ == cache_text(final(self).fresh@, timestamp))
                } else {
                    final(self).stage == ScanStage::Finished && step is Done
                }
            },
    {
        let stage = self.stage;
        match (stage, reply) {
            (ScanStage::Examining, ScanReply::Begin) => self.examine(),
            (ScanStage::Writing, ScanReply::Written) => self.examine(),
            (ScanStage::Probing, ScanReply::Probed(probed)) => {
                match probed {
                    Some(info) => {
                        let id = get_identifier_from_path(self.candidates[self.next].path.as_str());
                        self.fresh.insert(id, info);
                    },
                    None => {},
                }
                let total = self.candidates.len();
                assert(self.next < total);
                self.next = self.next + 1;
                self.stage = ScanStage::Writing;
                ScanStep::Write(self.write_cache())
            },
            _ => {
                self.stage = ScanStage::Finished;
                ScanStep::Done
            },
        }
    }

    /// Whether the scan is over.
    pub fn is_finished(&self) -> (r: bool)
        ensures
            r == (self.stage == ScanStage::Finished),
    {
        matches!(self.stage, ScanStage::Finished)
    }

    /// The new cache, to be handed to [`Registry::init`].
    pub fn into_cache(self) -> (cache: StrMap<PluginInfo>)
        ensures
            cache@ == self.fresh@,
    {
        self.fresh
    }
}

/// The extension of the file that a path names, if it has one.
pub uninterp spec fn path_extension(path: Seq<char>) -> Option<Seq<char>>;

/// `std::path::Path::extension` of the standard library, for a path given
/// as text: the part of the file name after its last dot, if the path has a
/// file name with a dot that is not its first character. The result depends
/// on the path alone.
#[verifier::external_body]
fn extension_of(path: &str) -> (r: Option<String>)
    ensures
        match r {
            Some(e) => path_extension(path@) == Some(e@),
            None => path_extension(path@) is None,
        },
{
    std::path::Path::new(path).extension().and_then(|e| e.to_str()).map(|e| e.to_owned())
}

/// A text with its ASCII letters in lower case.
pub open spec fn lowercased(s: Seq<char>) -> Seq<char> {
    Seq::new(s.len(), |i: int| lowercase(s[i]))
}

/// Whether a path names a plugin file: its extension is `vst3`, in any case.
pub open spec fn is_plugin_path(path: Seq<char>) -> bool {
    path_extension(path) matches Some(e) && lowercased(e) == "vst3"@
}

/// The paths among `entries` that name plugin files, in order.
pub open spec fn plugin_paths(entries: Seq<Seq<char>>) -> Seq<Seq<char>>
    decreases entries.len(),
{
    if entries.len() == 0 {
        seq![]
    } else if is_plugin_path(entries.last()) {
        plugin_paths(entries.drop_last()).push(entries.last())
    } else {
        plugin_paths(entries.drop_last())
    }
}

/// What a list of directory listings holds: for each directory its
/// entries, or nothing if it could not be read.
pub open spec fn listings(directories: Seq<Option<Vec<String>>>) -> Seq<Option<Seq<Seq<char>>>> {
    Seq::new(
        directories.len(),
        |i: int|
            match directories[i] {
                Some(list) => Some(texts(list@)),
                None => None,
            },
    )
}

/// The plugin files of all directories, directory by directory. A
/// directory that could not be read contributes nothing.
pub open spec fn library_paths(directories: Seq<Option<Seq<Seq<char>>>>) -> Seq<Seq<char>>
    decreases directories.len(),
{
    if directories.len() == 0 {
        seq![]
    } else {
        library_paths(directories.drop_last()) + match directories.last() {
            Some(entries) => plugin_paths(entries),
            None => seq![],
        }
    }
}

/// What a list of texts holds.
pub open spec fn texts(list: Seq<String>) -> Seq<Seq<char>> {
    Seq::new(list.len(), |i: int| list[i]@)
}

fn to_lowercase(s: &str) -> (r: String)
    ensures
        r@ == lowercased(s@),
{
    let mut r = String::new();
    for c in it: s.chars()
        invariant
            it.seq() == s@,
            r@ == lowercased(s@.take(it.index() as int)),
    {
        push_char(&mut r, to_ascii_lowercase(c));
        assert(r@ =~= lowercased(s@.take(it.index() + 1)));
    }
    assert(s@.take(s@.len() as int) =~= s@);
    r
}

impl Registry {
    /// Whether a path names a plugin file.
    pub fn is_plugin_file(path: &str) -> (r: bool)
        ensures
            r == is_plugin_path(path@),
    {
        match extension_of(path) {
            Some(ext) => {
                let lower = to_lowercase(ext.as_str());
                str_eq(lower.as_str(), "vst3")
            },
            None => false,
        }
    }

    /// Picks the plugin files out of the entries of one search directory
    /// and appends them to the list. A directory that could not be read has
    /// no entries to offer and is passed over with an error.
    pub fn find_libraries_in_path(entries: Option<&Vec<String>>, path_list: &mut Vec<String>) -> (r: Result<(), Error>)
        ensures
            match entries {
                Some(list) => r is Ok && texts(final(path_list)@) == texts(old(path_list)@)
                    + plugin_paths(texts(list@)),
                None => final(path_list)@ == old(path_list)@ && (r matches Err(e) && e.is(
                    ErrorKind::IOError,
                    "failed to read directory contents",
                )),
            },
    {
        let list = match entries {
            Some(list) => list,
            None => {
                return Err(Error::new(ErrorKind::IOError, "failed to read directory contents"));
            },
        };
        let ghost start = texts(path_list@);
        let ghost all = texts(list@);
        let mut i: usize = 0;
        assert(all.take(0) =~= Seq::<Seq<char>>::empty());
        assert(texts(path_list@) =~= start + plugin_paths(all.take(0)));
        while i < list.len()
            invariant
                i <= list.len(),
                all == texts(list@),
                texts(path_list@) == start + plugin_paths(all.take(i as int)),
            decreases list.len() - i,
        {
            let ghost before = texts(path_list@);
            proof {
                let next = all.take(i + 1);
                assert(next.drop_last() =~= all.take(i as int));
                assert(next.last() == all[i as int]);
            }
            if Self::is_plugin_file(list[i].as_str()) {
                path_list.push(list[i].clone());
                assert(texts(path_list@) =~= before.push(all[i as int]));
            }
            i += 1;
            assert(texts(path_list@) =~= start + plugin_paths(all.take(i as int)));
        }
        assert(all.take(list.len() as int) =~= all);
        Ok(())
    }

    /// The plugin files of all search directories, in the order of the
    /// directories. Each directory is given by its entries, or by nothing
    /// if it could not be read: such a directory is passed over.
    pub fn find_libraries(directories: &Vec<Option<Vec<String>>>) -> (r: Result<Vec<String>, Error>)
        ensures
            r matches Ok(list) && texts(list@) == library_paths(listings(directories@)),
    {
        let mut path_list: Vec<String> = Vec::new();
        let ghost all = listings(directories@);
        let mut i: usize = 0;
        assert(all.take(0) =~= Seq::<Option<Seq<Seq<char>>>>::empty());
        assert(texts(path_list@) =~= library_paths(all.take(0)));
        while i < directories.len()
            invariant
                i <= directories.len(),
                all == listings(directories@),
                texts(path_list@) == library_paths(all.take(i as int)),
            decreases directories.len() - i,
        {
            proof {
                let next = all.take(i + 1);
                assert(next.drop_last() =~= all.take(i as int));
                assert(next.last() == all[i as int]);
            }
            let ghost before = texts(path_list@);
            let _ = Self::find_libraries_in_path(directories[i].as_ref(), &mut path_list);
            assert(texts(path_list@) =~= before + match all[i as int] {
                Some(entries) => plugin_paths(entries),
                None => seq![],
            });
            i += 1;
        }
        assert(all.take(directories.len() as int) =~= all);
        Ok(path_list)
    }
}

} // verus!
