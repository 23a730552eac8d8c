//! Plugin modules: class metadata, identifiers, and the protocol by which a
//! plugin library is loaded and disposed.

use vstd::prelude::*;
use vstd::string::*;
use crate::error::{Error, ErrorKind};
use crate::guid::GUID;
use crate::text::{is_alphanumeric, is_ascii_alphanumeric, lowercase, push_char, str_eq, to_ascii_lowercase};
use crate::utils::{slashified, slashify_path};

verus! {

/// Category of a class that processes audio.
pub const VST_CATEGORY_AUDIO_EFFECT: &'static str = "Audio Module Class";

/// Category of a class that is the edit controller of a component.
pub const VST_CATEGORY_COMPONENT_CONTROLLER: &'static str = "Component Controller Class";

/// Category of a class that describes compatibility with other plugins.
pub const VST_CATEGORY_PLUGIN_COMPATIBILITY: &'static str = "Plugin Compatibility Class";

/// A class record as the factory of a plugin fills it in: fixed-size,
/// NUL-terminated text fields.
pub struct PClassInfo {
    pub cid: GUID,
    pub cardinality: i32,
    pub category: [u8; 32],
    pub name: [u8; 64],
}

/// Metadata of one class that a plugin exposes.
#[derive(Clone, Debug)]
pub struct ClassInfo {
    pub name: String,
    pub category: String,
    pub cardinality: i32,
    pub cid: GUID,
}

/// What a [`ClassInfo`] holds.
pub struct ClassInfoView {
    pub name: Seq<char>,
    pub category: Seq<char>,
    pub cardinality: i32,
    pub cid: Seq<u8>,
}

impl View for ClassInfo {
    type V = ClassInfoView;

    open spec fn view(&self) -> ClassInfoView {
        ClassInfoView {
            name: self.name@,
            category: self.category@,
            cardinality: self.cardinality,
            cid: self.cid@,
        }
    }
}

/// What is known of one plugin file.
#[derive(Clone, Debug)]
pub struct PluginInfo {
    pub id: String,
    pub path: String,
    pub classes: Vec<ClassInfo>,
    pub file_time: i64,
}

/// What a [`PluginInfo`] holds.
pub struct PluginInfoView {
    pub id: Seq<char>,
    pub path: Seq<char>,
    pub classes: Seq<ClassInfoView>,
    pub file_time: i64,
}

impl View for PluginInfo {
    type V = PluginInfoView;

    open spec fn view(&self) -> PluginInfoView {
        PluginInfoView {
            id: self.id@,
            path: self.path@,
            classes: class_views(self.classes@),
            file_time: self.file_time,
        }
    }
}

impl Default for PluginInfo {
    fn default() -> (p: Self)
        ensures
            p@ == (PluginInfoView { id: seq![], path: seq![], classes: seq![], file_time: 0 }),
    {
        let p = Self { id: String::new(), path: String::new(), classes: Vec::new(), file_time: 0 };
        assert(p@.classes =~= seq![]);
        p
    }
}

/// The text that the standard library's lossy UTF-8 conversion gives for a
/// byte string.
pub uninterp spec fn utf8_lossy(bytes: Seq<u8>) -> Seq<char>;

/// `String::from_utf8_lossy` of the standard library, copied into an owned
/// string: the text that the bytes encode, with a replacement character for
/// every malformed sequence. The result depends on the bytes alone.
#[verifier::external_body]
fn string_from_utf8_lossy(bytes: &[u8]) -> (s: String)
    ensures
        s@ == utf8_lossy(bytes@),
{
    String::from_utf8_lossy(bytes).into_owned()
}

/// The bytes of a fixed-size text field up to, and without, its first NUL.
pub open spec fn until_nul(field: Seq<u8>) -> Seq<u8>
    decreases field.len(),
{
    if field.len() == 0 || field[0] == 0 {
        seq![]
    } else {
        seq![field[0]] + until_nul(field.drop_first())
    }
}

proof fn lemma_until_nul_prefix(field: Seq<u8>, n: int)
    requires
        0 <= n <= field.len(),
        forall|k: int| 0 <= k < n ==> field[k] != 0,
        n == field.len() || field[n] == 0,
    ensures
        until_nul(field) == field.take(n),
    decreases n,
{
    if n == 0 {
        assert(field.take(0) =~= seq![]);
    } else {
        lemma_until_nul_prefix(field.drop_first(), n - 1);
        assert(field.take(n) =~= seq![field[0]] + field.drop_first().take(n - 1));
    }
}

fn field_text(field: &[u8]) -> (s: String)
    ensures
        s@ == utf8_lossy(until_nul(field@)),
{
    let mut n: usize = 0;
    while n < field.len() && field[n] != 0
        invariant
            n <= field.len(),
            forall|k: int| 0 <= k < n ==> field@[k] != 0,
        decreases field.len() - n,
    {
        n += 1;
    }
    proof {
        lemma_until_nul_prefix(field@, n as int);
    }
    let head = vstd::slice::slice_subrange(field, 0, n);
    assert(head@ =~= field@.take(n as int));
    string_from_utf8_lossy(head)
}

/// What a sequence of class records holds.
pub open spec fn class_views(classes: Seq<ClassInfo>) -> Seq<ClassInfoView> {
    Seq::new(classes.len(), |i: int| classes[i]@)
}

impl ClassInfo {
    /// The metadata that a factory's class record denotes. Each text field
    /// ends at its first NUL and is read as UTF-8, with replacement
    /// characters where it is malformed.
    pub open spec fn from_spec(ci: PClassInfo) -> ClassInfoView {
        ClassInfoView {
            name: utf8_lossy(until_nul(ci.name@)),
            category: utf8_lossy(until_nul(ci.category@)),
            cardinality: ci.cardinality,
            cid: ci.cid@,
        }
    }

    /// The metadata that a factory's class record denotes.
    pub fn from(ci: PClassInfo) -> (info: Self)
        ensures
            info@ == Self::from_spec(ci),
    {
        let category = field_text(ci.category.as_slice());
        let name = field_text(ci.name.as_slice());
        Self { name, category, cardinality: ci.cardinality, cid: ci.cid }
    }

    /// A copy of this record.
    pub fn duplicate(&self) -> (c: Self)
        ensures
            c@ == self@,
    {
        Self {
            name: self.name.clone(),
            category: self.category.clone(),
            cardinality: self.cardinality,
            cid: self.cid,
        }
    }
}

impl PluginInfo {
    /// A copy of this record.
    pub fn duplicate(&self) -> (p: Self)
        ensures
            p@ == self@,
    {
        let mut classes: Vec<ClassInfo> = Vec::new();
        let mut i: usize = 0;
        while i < self.classes.len()
            invariant
                i <= self.classes.len(),
                classes@.len() == i,
                forall|k: int| 0 <= k < i ==> classes@[k]@ == self.classes@[k]@,
            decreases self.classes.len() - i,
        {
            classes.push(self.classes[i].duplicate());
            i += 1;
        }
        let p = Self {
            id: self.id.clone(),
            path: self.path.clone(),
            classes,
            file_time: self.file_time,
        };
        assert(p@.classes =~= self@.classes);
        p
    }
}

/// A name with every letter and digit in lower case and every other
/// character replaced by an underscore.
pub open spec fn sanitized(name: Seq<char>) -> Seq<char> {
    Seq::new(
        name.len(),
        |i: int|
            if is_alphanumeric(name[i]) {
                lowercase(name[i])
            } else {
                '_'
            },
    )
}

/// The suffix that tells the categories of classes apart.
pub open spec fn category_suffix(category: Seq<char>) -> Seq<char> {
    if category == VST_CATEGORY_AUDIO_EFFECT@ {
        seq![]
    } else if category == VST_CATEGORY_COMPONENT_CONTROLLER@ {
        "_controller"@
    } else if category == VST_CATEGORY_PLUGIN_COMPATIBILITY@ {
        "_compat"@
    } else {
        "_unknown"@
    }
}

/// The key under which a class is filed: the prefix and an underscore, if a
/// prefix is given, then the sanitized name, then the category's suffix.
pub open spec fn class_identifier(class: ClassInfoView, prefix: Option<Seq<char>>) -> Seq<char> {
    let head = match prefix {
        Some(p) => p.push('_'),
        None => seq![],
    };
    head + sanitized(class.name) + category_suffix(class.category)
}

pub fn get_identifier_from_class(class_info: &ClassInfo, prefix: Option<&str>) -> (s: String)
    ensures
        s@ == class_identifier(
            class_info@,
            match prefix {
                Some(p) => Some(p@),
                None => None,
            },
        ),
{
    let mut s = String::new();
    if let Some(p) = prefix {
        s.append(p);
        push_char(&mut s, '_');
    }
    let ghost head = s@;
    let name = class_info.name.as_str();
    for c in it: name.chars()
        invariant
            it.seq() == name@,
            s@ == head + sanitized(name@.take(it.index() as int)),
    {
        if is_ascii_alphanumeric(c) {
            push_char(&mut s, to_ascii_lowercase(c));
        } else {
            push_char(&mut s, '_');
        }
        assert(s@ =~= head + sanitized(name@.take(it.index() + 1)));
    }
    assert(name@.take(name@.len() as int) =~= name@);
    let category = class_info.category.as_str();
    if str_eq(category, VST_CATEGORY_AUDIO_EFFECT) {
        assert(s@ =~= head + sanitized(name@) + seq![]);
    } else if str_eq(category, VST_CATEGORY_COMPONENT_CONTROLLER) {
        s.append("_controller");
    } else if str_eq(category, VST_CATEGORY_PLUGIN_COMPATIBILITY) {
        s.append("_compat");
    } else {
        s.append("_unknown");
    }
    s
}

/// The identity of a plugin, derived from its path: letters and digits in
/// lower case, and one underscore for each run of other characters.
pub open spec fn path_identifier(path: Seq<char>) -> Seq<char>
    decreases path.len(),
{
    if path.len() == 0 {
        seq![]
    } else {
        let init = path.drop_last();
        let c = path.last();
        if is_alphanumeric(c) {
            path_identifier(init).push(lowercase(c))
        } else if init.len() > 0 && !is_alphanumeric(init.last()) {
            path_identifier(init)
        } else {
            path_identifier(init).push('_')
        }
    }
}

pub fn get_identifier_from_path(path: &str) -> (s: String)
    ensures
        s@ == path_identifier(path@),
{
    let mut s = String::new();
    let mut last_ignored = false;
    for c in it: path.chars()
        invariant
            it.seq() == path@,
            s@ == path_identifier(path@.take(it.index() as int)),
            last_ignored == (it.index() > 0 && !is_alphanumeric(path@[it.index() - 1])),
    {
        let ghost next = path@.take(it.index() + 1);
        assert(next.drop_last() =~= path@.take(it.index() as int));
        assert(next.last() == c);
        if is_ascii_alphanumeric(c) {
            push_char(&mut s, to_ascii_lowercase(c));
            last_ignored = false;
        } else {
            if !last_ignored {
                push_char(&mut s, '_');
            }
            last_ignored = true;
        }
    }
    assert(path@.take(path@.len() as int) =~= path@);
    s
}

/// One thing asked of a plugin library or of the factory it hands out.
#[derive(Clone, Copy, Debug, PartialEq, Eq, Structural)]
pub enum ModuleCall {
    /// Open the dynamic library.
    OpenLibrary,
    /// Call the initialization entry point, if the library has one.
    CallInit,
    /// Look up the exit entry point.
    ResolveExit,
    /// Look up the factory entry point and call it.
    GetFactory,
    /// Ask the factory how many classes it exposes.
    CountClasses,
    /// Ask the factory for the class record at an index.
    GetClassInfo(i32),
    /// Give up the reference to the factory.
    ReleaseFactory,
    /// Call the exit entry point.
    CallExit,
    /// Close the dynamic library.
    CloseLibrary,
}

/// What the factory entry point gave.
#[derive(Clone, Copy, Debug, PartialEq, Eq, Structural)]
pub enum FactoryAnswer {
    /// The library has no factory entry point.
    Missing,
    /// The entry point handed out no factory.
    Null,
    /// A factory was handed out.
    Present,
}

/// What came of the call that a loader asked for last.
pub enum LoadReply {
    /// Nothing was asked for yet.
    Begin,
    /// Whether the library could be opened.
    Opened(bool),
    /// What the initialization entry point returned; nothing if the library has none.
    Initialized(Option<bool>),
    /// Whether the library has an exit entry point.
    ExitResolved(bool),
    /// What the factory entry point gave.
    Factory(FactoryAnswer),
    /// The number of classes that the factory reported.
    ClassCount(i32),
    /// The class record that was asked for; nothing if the factory failed to give it.
    ClassRead(Option<PClassInfo>),
    /// The library was closed.
    Closed,
}

/// How far a loader has come.
#[derive(Clone, Copy, Debug, PartialEq, Eq, Structural)]
pub enum LoadStage {
    Idle,
    Opening,
    Initializing,
    ResolvingExit,
    ResolvingFactory,
    Counting,
    Reading,
    Closing,
    Finished,
}

/// What a loader wants next.
pub enum LoadStep {
    /// Make this call and come back with its outcome.
    Call(ModuleCall),
    /// The plugin is loaded.
    Loaded(Plugin),
    /// Loading failed; nothing of the library is held any more.
    Failed(Error),
}

/// A loaded plugin module: its metadata, whether its library is still held,
/// and whether the library has an exit entry point.
pub struct Plugin {
    pub info: PluginInfo,
    pub lib: bool,
    pub exit_fn: bool,
}

/// What a [`Plugin`] holds.
pub struct PluginView {
    pub info: PluginInfoView,
    pub lib: bool,
    pub exit_fn: bool,
}

impl View for Plugin {
    type V = PluginView;

    open spec fn view(&self) -> PluginView {
        PluginView { info: self.info@, lib: self.lib, exit_fn: self.exit_fn }
    }
}

/// The calls that dispose a module that is held: the factory is released,
/// the exit entry point runs if there is one, and the library is closed last.
pub open spec fn dispose_calls(exit_fn: bool) -> Seq<ModuleCall> {
    if exit_fn {
        seq![ModuleCall::ReleaseFactory, ModuleCall::CallExit, ModuleCall::CloseLibrary]
    } else {
        seq![ModuleCall::ReleaseFactory, ModuleCall::CloseLibrary]
    }
}

impl Plugin {
    /// The module that a library at `filename` makes once it is open and its
    /// classes are read.
    pub fn new(filename: &str, file_time: i64, exit_fn: bool, classes: Vec<ClassInfo>) -> (p: Self)
        ensures
            p.lib,
            p.exit_fn == exit_fn,
            p.info.id@ == path_identifier(filename@),
            p.info.path@ == slashified(filename@),
            p.info.classes == classes,
            p.info.file_time == file_time,
    {
        Self {
            info: PluginInfo {
                id: get_identifier_from_path(filename),
                path: slashify_path(filename),
                classes,
                file_time,
            },
            lib: true,
            exit_fn,
        }
    }

    /// Lets go of the library. The calls to make are returned in their
    /// order; a module that was disposed before asks for none.
    pub fn dispose(&mut self) -> (calls: Vec<ModuleCall>)
        ensures
            !final(self).lib,
            final(self).exit_fn == old(self).exit_fn,
            final(self).info == old(self).info,
            calls@ == if old(self).lib {
                dispose_calls(old(self).exit_fn)
            } else {
                Seq::<ModuleCall>::empty()
            },
    {
        let mut calls: Vec<ModuleCall> = Vec::new();
        if self.lib {
            self.lib = false;
            calls.push(ModuleCall::ReleaseFactory);
            if self.exit_fn {
                calls.push(ModuleCall::CallExit);
            }
            calls.push(ModuleCall::CloseLibrary);
            assert(calls@ =~= dispose_calls(self.exit_fn));
        }
        calls
    }

    /// A copy of this record.
    pub fn duplicate(&self) -> (p: Self)
        ensures
            p@ == self@,
    {
        Self { info: self.info.duplicate(), lib: self.lib, exit_fn: self.exit_fn }
    }

    pub fn get_info(&self) -> (info: &PluginInfo)
        ensures
            info == self.info,
    {
        &self.info
    }

    /// Whether the library is still held.
    pub fn is_loaded(&self) -> (r: bool)
        ensures
            r == self.lib,
    {
        self.lib
    }

    /// The first class with the given name.
    pub fn get_class_info(&self, name: &str) -> (r: Option<&ClassInfo>)
        ensures
            match r {
                Some(c) => exists|i: int|
                    0 <= i < self.info.classes@.len() && *c == self.info.classes@[i] && c.name@
                        == name@ && forall|j: int| 0 <= j < i ==> self.info.classes@[j].name@ != name@,
                None => forall|j: int|
                    0 <= j < self.info.classes@.len() ==> self.info.classes@[j].name@ != name@,
            },
    {
        let mut i: usize = 0;
        while i < self.info.classes.len()
            invariant
                i <= self.info.classes.len(),
                forall|j: int| 0 <= j < i ==> self.info.classes@[j].name@ != name@,
            decreases self.info.classes.len() - i,
        {
            if str_eq(self.info.classes[i].name.as_str(), name) {
                return Some(&self.info.classes[i]);
            }
            i += 1;
        }
        None
    }

    /// The identifier to hand to the factory for the class of the given
    /// name. A name that no class has cannot be instantiated.
    pub fn create_class_instance_by_name(&self, name: &str) -> (r: Result<GUID, Error>)
        ensures
            match r {
                Ok(cid) => exists|i: int|
                    0 <= i < self.info.classes@.len() && cid == self.info.classes@[i].cid
                        && self.info.classes@[i].name@ == name@ && forall|j: int|
                        0 <= j < i ==> self.info.classes@[j].name@ != name@,
                Err(e) => e.is(ErrorKind::CreationFailed, "failed to create instance") && forall|j: int|
                    0 <= j < self.info.classes@.len() ==> self.info.classes@[j].name@ != name@,
            },
    {
        match self.get_class_info(name) {
            Some(class_info) => Ok(class_info.cid),
            None => Err(Error::new(ErrorKind::CreationFailed, "failed to create instance")),
        }
    }

    /// Judges what the factory answered when it was asked to create an
    /// instance: the creation succeeded if the status is success and an
    /// object was handed out.
    pub fn create_class_instance(&self, status: i32, object_present: bool) -> (r: Result<(), Error>)
        ensures
            r is Ok <==> (status == 0 && object_present),
            r matches Err(e) ==> e.is(ErrorKind::CreationFailed, "failed to create instance"),
    {
        if status != 0 || !object_present {
            return Err(Error::new(ErrorKind::CreationFailed, "failed to create instance"));
        }
        Ok(())
    }
}

/// Loads one plugin library, call by call.
///
/// The loader says which call to make; the caller makes it and comes back
/// with the outcome. The library is opened, initialized if it has an
/// initialization entry point, asked for its exit entry point and its
/// factory, and the factory for each of its classes in turn. A library that
/// was opened and then proves unusable is closed before the failure is
/// reported.
pub struct PluginLoader {
    pub filename: String,
    pub file_time: i64,
    pub stage: LoadStage,
    pub exit_fn: bool,
    pub count: i32,
    pub index: i32,
    pub classes: Vec<ClassInfo>,
    pub failure: Option<Error>,
}

impl PluginLoader {
    pub fn new(filename: &str, file_time: i64) -> (l: Self)
        ensures
            l.filename@ == filename@,
            l.file_time == file_time,
            l.stage == LoadStage::Idle,
            !l.exit_fn,
            l.count == 0,
            l.index == 0,
            l.classes@ == Seq::<ClassInfo>::empty(),
            l.failure is None,
    {
        Self {
            filename: filename.to_owned(),
            file_time,
            stage: LoadStage::Idle,
            exit_fn: false,
            count: 0,
            index: 0,
            classes: Vec::new(),
            failure: None,
        }
    }

    /// Whether the reply answers the call that the stage is waiting for.
    pub open spec fn expects(stage: LoadStage, reply: LoadReply) -> bool {
        match (stage, reply) {
            (LoadStage::Idle, LoadReply::Begin) => true,
            (LoadStage::Opening, LoadReply::Opened(_)) => true,
            (LoadStage::Initializing, LoadReply::Initialized(_)) => true,
            (LoadStage::ResolvingExit, LoadReply::ExitResolved(_)) => true,
            (LoadStage::ResolvingFactory, LoadReply::Factory(_)) => true,
            (LoadStage::Counting, LoadReply::ClassCount(_)) => true,
            (LoadStage::Reading, LoadReply::ClassRead(_)) => true,
            (LoadStage::Closing, LoadReply::Closed) => true,
            _ => false,
        }
    }

    /// The loader's state is consistent: while class records are read, the
    /// index of the next one is within the count.
    pub open spec fn wf(&self) -> bool {
        &&& self.stage == LoadStage::Reading ==> 0 <= self.index < self.count
        &&& self.stage == LoadStage::Closing ==> self.failure is Some
    }

    fn finish(&mut self) -> (p: Plugin)
        ensures
            p.lib,
            p.exit_fn == old(self).exit_fn,
            p.info.id@ == path_identifier(old(self).filename@),
            p.info.path@ == slashified(old(self).filename@),
            p.info.classes == old(self).classes,
            p.info.file_time == old(self).file_time,
            final(self).stage == LoadStage::Finished,
            final(self).filename == old(self).filename,
            final(self).file_time == old(self).file_time,
            final(self).wf(),
    {
        let mut classes: Vec<ClassInfo> = Vec::new();
        core::mem::swap(&mut classes, &mut self.classes);
        self.stage = LoadStage::Finished;
        Plugin::new(self.filename.as_str(), self.file_time, self.exit_fn, classes)
    }

    fn close_with(&mut self, kind: ErrorKind, message: &str) -> (step: LoadStep)
        ensures
            step matches LoadStep::Call(ModuleCall::CloseLibrary),
            final(self).stage == LoadStage::Closing,
            final(self).failure matches Some(e) && e.is(kind, message),
            final(self).exit_fn == old(self).exit_fn,
            final(self).classes == old(self).classes,
            final(self).filename == old(self).filename,
            final(self).file_time == old(self).file_time,
            final(self).wf(),
    {
        self.failure = Some(Error::new(kind, message));
        self.stage = LoadStage::Closing;
        LoadStep::Call(ModuleCall::CloseLibrary)
    }

    /// Takes the outcome of the last call and says what to do next.
    pub fn resume(&mut self, reply: LoadReply) -> (step: LoadStep)
        requires
            old(self).wf(),
        ensures
            final(self).wf(),
            final(self).filename == old(self).filename,
            final(self).file_time == old(self).file_time,
            !Self::expects(old(self).stage, reply) ==> final(self).stage == LoadStage::Finished && (
            step matches LoadStep::Failed(e) && e.is(
                ErrorKind::PreconditionFailed,
                "unexpected reply while loading plugin",
            )),
            Self::expects(old(self).stage, reply) ==> match reply {
                LoadReply::Begin => step matches LoadStep::Call(ModuleCall::OpenLibrary)
                    && final(self).stage == LoadStage::Opening,
                LoadReply::Opened(true) => step matches LoadStep::Call(ModuleCall::CallInit)
                    && final(self).stage == LoadStage::Initializing,
                LoadReply::Opened(false) => final(self).stage == LoadStage::Finished && (
                step matches LoadStep::Failed(e) && e.is(
                    ErrorKind::LoadError,
                    "failed to load plugin library: could not load dynamic library",
                )),
                LoadReply::Initialized(Some(false)) => step matches LoadStep::Call(
                    ModuleCall::CloseLibrary,
                ) && final(self).stage == LoadStage::Closing && (
                final(self).failure matches Some(e) && e.is(
                    ErrorKind::InitError,
                    "failed to initialize plugin",
                )),
                LoadReply::Initialized(_) => step matches LoadStep::Call(ModuleCall::ResolveExit)
                    && final(self).stage == LoadStage::ResolvingExit,
                LoadReply::ExitResolved(present) => step matches LoadStep::Call(
                    ModuleCall::GetFactory,
                ) && final(self).stage == LoadStage::ResolvingFactory && final(self).exit_fn
                    == present,
                LoadReply::Factory(FactoryAnswer::Missing) => step matches LoadStep::Call(
                    ModuleCall::CloseLibrary,
                ) && final(self).stage == LoadStage::Closing && (
                final(self).failure matches Some(e) && e.is(
                    ErrorKind::IncompatibleInterface,
                    "failed to load plugin library: incompatible plugin interface",
                )),
                LoadReply::Factory(FactoryAnswer::Null) => step matches LoadStep::Call(
                    ModuleCall::CloseLibrary,
                ) && final(self).stage == LoadStage::Closing && (
                final(self).failure matches Some(e) && e.is(
                    ErrorKind::IncompatibleInterface,
                    "no plugin factory",
                )),
                LoadReply::Factory(FactoryAnswer::Present) => step matches LoadStep::Call(
                    ModuleCall::CountClasses,
                ) && final(self).stage == LoadStage::Counting && final(self).exit_fn == old(self).exit_fn,
                LoadReply::ClassCount(n) => if n > 0 {
                    step matches LoadStep::Call(ModuleCall::GetClassInfo(0)) && final(self).stage
                        == LoadStage::Reading && final(self).count == n && final(self).index == 0
                        && final(self).exit_fn == old(self).exit_fn && final(self).classes@
                        == Seq::<ClassInfo>::empty()
                } else {
                    final(self).stage == LoadStage::Finished && (step matches LoadStep::Loaded(p)
                        && p.lib && p.exit_fn == old(self).exit_fn && p.info.id@
                        == path_identifier(old(self).filename@) && p.info.path@ == slashified(
                        old(self).filename@,
                    ) && p.info.file_time == old(self).file_time && p.info.classes@
                        == Seq::<ClassInfo>::empty())
                },
                LoadReply::ClassRead(record) => {
                    let classes = match record {
                        Some(ci) => class_views(old(self).classes@).push(ClassInfo::from_spec(ci)),
                        None => class_views(old(self).classes@),
                    };
                    if old(self).index + 1 < old(self).count {
                        step matches LoadStep::Call(ModuleCall::GetClassInfo(i)) && i == old(self).index + 1 && final(self).stage == LoadStage::Reading && final(self).index == old(self).index + 1 && final(self).count == old(self).count
                            && final(self).exit_fn == old(self).exit_fn
                            && class_views(final(self).classes@) == classes
                    } else {
                        final(self).stage == LoadStage::Finished && (
                        step matches LoadStep::Loaded(p) && p.lib && p.exit_fn == old(self).exit_fn && p.info.id@ == path_identifier(old(self).filename@)
                            && p.info.path@ == slashified(old(self).filename@)
                            && p.info.file_time == old(self).file_time && class_views(
                            p.info.classes@,
                        ) == classes)
                    }
                },
                LoadReply::Closed => final(self).stage == LoadStage::Finished && (
                step matches LoadStep::Failed(e) && Some(e) == old(self).failure),
            },
    {
        let stage = self.stage;
        match (stage, reply) {
            (LoadStage::Idle, LoadReply::Begin) => {
                self.stage = LoadStage::Opening;
                LoadStep::Call(ModuleCall::OpenLibrary)
            },
            (LoadStage::Opening, LoadReply::Opened(opened)) => {
                if opened {
                    self.stage = LoadStage::Initializing;
                    LoadStep::Call(ModuleCall::CallInit)
                } else {
                    self.stage = LoadStage::Finished;
                    LoadStep::Failed(
                        Error::new(
                            ErrorKind::LoadError,
                            "failed to load plugin library: could not load dynamic library",
                        ),
                    )
                }
            },
            (LoadStage::Initializing, LoadReply::Initialized(result)) => {
                match result {
                    Some(false) => self.close_with(ErrorKind::InitError, "failed to initialize plugin"),
                    _ => {
                        self.stage = LoadStage::ResolvingExit;
                        LoadStep::Call(ModuleCall::ResolveExit)
                    },
                }
            },
            (LoadStage::ResolvingExit, LoadReply::ExitResolved(present)) => {
                self.exit_fn = present;
                self.stage = LoadStage::ResolvingFactory;
                LoadStep::Call(ModuleCall::GetFactory)
            },
            (LoadStage::ResolvingFactory, LoadReply::Factory(answer)) => {
                match answer {
                    FactoryAnswer::Missing => self.close_with(
                        ErrorKind::IncompatibleInterface,
                        "failed to load plugin library: incompatible plugin interface",
                    ),
                    FactoryAnswer::Null => self.close_with(
                        ErrorKind::IncompatibleInterface,
                        "no plugin factory",
                    ),
                    FactoryAnswer::Present => {
                        self.stage = LoadStage::Counting;
                        LoadStep::Call(ModuleCall::CountClasses)
                    },
                }
            },
            (LoadStage::Counting, LoadReply::ClassCount(n)) => {
                self.classes = Vec::new();
                if n > 0 {
                    self.count = n;
                    self.index = 0;
                    self.stage = LoadStage::Reading;
                    LoadStep::Call(ModuleCall::GetClassInfo(0))
                } else {
                    LoadStep::Loaded(self.finish())
                }
            },
            (LoadStage::Reading, LoadReply::ClassRead(record)) => {
                let ghost before = self.classes@;
                match record {
                    Some(ci) => {
                        self.classes.push(ClassInfo::from(ci));
                        assert(class_views(self.classes@) =~= class_views(before).push(
                            ClassInfo::from_spec(ci),
                        ));
                    },
                    None => {},
                }
                if self.index + 1 < self.count {
                    self.index = self.index + 1;
                    LoadStep::Call(ModuleCall::GetClassInfo(self.index))
                } else {
                    LoadStep::Loaded(self.finish())
                }
            },
            (LoadStage::Closing, LoadReply::Closed) => {
                self.stage = LoadStage::Finished;
                match self.failure.take() {
                    Some(e) => LoadStep::Failed(e),
                    None => LoadStep::Failed(Error::new(ErrorKind::LoadError, "failed to load plugin")),
                }
            },
            _ => {
                self.stage = LoadStage::Finished;
                LoadStep::Failed(
                    Error::new(ErrorKind::PreconditionFailed, "unexpected reply while loading plugin"),
                )
            },
        }
    }
}

} // verus!
