//! Registration of host items as engine-visible bindings, and the decoding
//! of the arguments of a call.
//!
//! A registry is an ordered table of bindings. Each binding has the path
//! under which the engine sees it, from the scope that the registry is
//! installed into. A module that is registered nested adds its own name to
//! the path of its members; a bare module adds nothing and leaves no entry of
//! its own, at any depth.

use vstd::prelude::*;
use vstd::string::StringExecFns;
use crate::value::{Value, ValueView};
use crate::error::{Error, ErrorView};
use crate::convert::{HostType, HostValue, HostView, decode, decode_spec, encode, encode_spec};

verus! {

/// What the declaration of an item may configure.
#[derive(Clone, Debug, PartialEq, Eq)]
pub struct ItemConfig {
    /// The engine-visible name, where it differs from the host name.
    pub name: Option<String>,
    /// For a module: install its members into the enclosing scope.
    pub bare: bool,
    /// Leave the item out.
    pub skip: bool,
}

/// The kinds of item that can be bound.
#[derive(Clone, Copy, Debug, PartialEq, Eq, Structural)]
pub enum ItemKind {
    /// A function with its declared number of parameters. An asynchronous
    /// one returns a promise to the engine.
    Function { arity: usize, asynchronous: bool },
    /// A constant, encoded once.
    Constant { read_only: bool },
    /// A module: an object that holds its members.
    Module,
}

/// One installed item.
#[derive(Clone, Debug, PartialEq, Eq)]
pub struct Binding {
    /// The names that lead to the item, outermost first.
    pub path: Vec<String>,
    /// What the item is.
    pub kind: ItemKind,
}

/// The mathematical content of a [`Binding`].
pub ghost struct BindingView {
    pub path: Seq<Seq<char>>,
    pub kind: ItemKind,
}

/// The names of a path as sequences of characters.
pub open spec fn path_view(path: Seq<String>) -> Seq<Seq<char>> {
    path.map_values(|s: String| s@)
}

impl View for Binding {
    type V = BindingView;

    open spec fn view(&self) -> BindingView {
        BindingView { path: path_view(self.path@), kind: self.kind }
    }
}

/// The name under which the engine sees an item.
pub open spec fn visible_name_spec(host_name: Seq<char>, config: ItemConfig) -> Seq<char> {
    match config.name {
        Some(n) => n@,
        None => host_name,
    }
}

/// The name under which the engine sees an item: the configured one, or the
/// host name where none is configured.
pub fn visible_name(host_name: &str, config: &ItemConfig) -> (name: String)
    ensures
        name@ == visible_name_spec(host_name@, *config),
{
    match &config.name {
        Some(n) => n.clone(),
        None => String::from_str(host_name),
    }
}

/// A copy of `scope`.
pub fn clone_path(scope: &Vec<String>) -> (path: Vec<String>)
    ensures
        path_view(path@) == path_view(scope@),
{
    let mut path: Vec<String> = Vec::new();
    let mut i: usize = 0;
    proof {
        assert(path_view(path@) =~= path_view(scope@).take(0));
    }
    while i < scope.len()
        invariant
            i <= scope.len(),
            path_view(path@) == path_view(scope@).take(i as int),
        decreases scope.len() - i,
    {
        let ghost before = path@;
        let part = scope[i].clone();
        path.push(part);
        proof {
            assert(path@ == before.push(part));
            assert(path_view(path@) =~= path_view(before).push(part@));
            assert(path_view(scope@).take(i + 1) =~= path_view(scope@).take(i as int).push(
                scope@[i as int]@,
            ));
        }
        i = i + 1;
    }
    proof {
        assert(path_view(scope@).take(scope.len() as int) =~= path_view(scope@));
    }
    path
}

/// The path of the item `name` inside `scope`.
pub fn child_path(scope: &Vec<String>, name: String) -> (path: Vec<String>)
    ensures
        path_view(path@) == path_view(scope@).push(name@),
{
    let mut path = clone_path(scope);
    let ghost before = path@;
    path.push(name);
    proof {
        assert(path_view(path@) =~= path_view(before).push(name@));
    }
    path
}

/// Whether two paths are made of the same names.
pub fn same_path(a: &Vec<String>, b: &Vec<String>) -> (same: bool)
    ensures
        same == (path_view(a@) == path_view(b@)),
{
    if a.len() != b.len() {
        proof {
            assert(path_view(a@).len() != path_view(b@).len());
        }
        return false;
    }
    let mut i: usize = 0;
    while i < a.len()
        invariant
            i <= a.len(),
            a.len() == b.len(),
            forall|j: int| 0 <= j < i ==> a@[j]@ == b@[j]@,
        decreases a.len() - i,
    {
        if a[i] != b[i] {
            proof {
                assert(path_view(a@)[i as int] == a@[i as int]@);
                assert(path_view(b@)[i as int] == b@[i as int]@);
            }
            return false;
        }
        i = i + 1;
    }
    proof {
        assert(path_view(a@) =~= path_view(b@));
    }
    true
}

/// An ordered table of installed items.
#[derive(Clone, Debug, PartialEq, Eq)]
pub struct Registry {
    entries: Vec<Binding>,
}

impl View for Registry {
    type V = Seq<BindingView>;

    closed spec fn view(&self) -> Seq<BindingView> {
        self.entries@.map_values(|b: Binding| b@)
    }
}

/// The table after the item `host_name` of kind `kind` is registered in
/// `scope`.
pub open spec fn registered(
    table: Seq<BindingView>,
    scope: Seq<Seq<char>>,
    host_name: Seq<char>,
    config: ItemConfig,
    kind: ItemKind,
) -> Seq<BindingView> {
    if config.skip {
        table
    } else {
        table.push(BindingView { path: scope.push(visible_name_spec(host_name, config)), kind })
    }
}

/// The scope in which the members of the module `host_name` of `scope` are
/// registered.
pub open spec fn member_scope(scope: Seq<Seq<char>>, host_name: Seq<char>, config: ItemConfig) -> Seq<
    Seq<char>,
> {
    if config.bare {
        scope
    } else {
        scope.push(visible_name_spec(host_name, config))
    }
}

/// The table after the module `host_name` is opened in `scope`.
pub open spec fn module_opened(
    table: Seq<BindingView>,
    scope: Seq<Seq<char>>,
    host_name: Seq<char>,
    config: ItemConfig,
) -> Seq<BindingView> {
    if config.bare {
        table
    } else {
        registered(table, scope, host_name, config, ItemKind::Module)
    }
}

/// Whether some entry of `table` has the path `path`.
pub open spec fn exposes(table: Seq<BindingView>, path: Seq<Seq<char>>) -> bool {
    exists|i: int| 0 <= i < table.len() && (#[trigger] table[i]).path == path
}

impl Registry {
    /// An empty table.
    pub fn new() -> (registry: Registry)
        ensures
            registry@ == Seq::<BindingView>::empty(),
    {
        let registry = Registry { entries: Vec::new() };
        proof {
            assert(registry@ =~= Seq::<BindingView>::empty());
        }
        registry
    }

    /// How many items are installed.
    pub fn len(&self) -> (n: usize)
        ensures
            n == self@.len(),
    {
        self.entries.len()
    }

    /// The item at position `i`, in the order of registration.
    pub fn get(&self, i: usize) -> (b: Option<&Binding>)
        ensures
            i < self@.len() ==> (b matches Some(x) && x@ == self@[i as int]),
            i >= self@.len() ==> b is None,
    {
        if i < self.entries.len() {
            Some(&self.entries[i])
        } else {
            None
        }
    }

    /// Whether some installed item has the path `path`.
    pub fn exposes(&self, path: &Vec<String>) -> (found: bool)
        ensures
            found == exposes(self@, path_view(path@)),
    {
        let mut i: usize = 0;
        while i < self.entries.len()
            invariant
                i <= self.entries.len(),
                forall|j: int| 0 <= j < i ==> (#[trigger] self@[j]).path != path_view(path@),
            decreases self.entries.len() - i,
        {
            if same_path(&self.entries[i].path, path) {
                proof {
                    assert(self@[i as int].path == path_view(path@));
                }
                return true;
            }
            proof {
                assert(self@[i as int] == self.entries@[i as int]@);
            }
            i = i + 1;
        }
        false
    }

    /// Registers a function or a constant in `scope`, under its visible
    /// name. A skipped item leaves the table as it was.
    pub fn register(&mut self, scope: &Vec<String>, host_name: &str, config: &ItemConfig, kind: ItemKind)
        ensures
            final(self)@ == registered(old(self)@, path_view(scope@), host_name@, *config, kind),
    {
        if !config.skip {
            let path = child_path(scope, visible_name(host_name, config));
            let binding = Binding { path, kind };
            self.entries.push(binding);
            proof {
                assert(final(self)@ =~= old(self)@.push(binding@));
            }
        }
    }

    /// Opens a module in `scope` and returns the scope for its members. A
    /// nested module is registered as an item of `scope` and its members go
    /// below its name. A bare module, and a skipped one, leave the table as
    /// it was; the members of a bare module go into `scope` itself.
    pub fn open_module(&mut self, scope: &Vec<String>, host_name: &str, config: &ItemConfig) -> (inner:
        Vec<String>)
        ensures
            final(self)@ == module_opened(old(self)@, path_view(scope@), host_name@, *config),
            path_view(inner@) == member_scope(path_view(scope@), host_name@, *config),
    {
        if config.bare {
            clone_path(scope)
        } else {
            self.register(scope, host_name, config, ItemKind::Module);
            child_path(scope, visible_name(host_name, config))
        }
    }
}

/// The views of a sequence of engine values.
pub open spec fn value_views(vs: Seq<Value>) -> Seq<ValueView> {
    vs.map_values(|v: Value| v@)
}

/// The views of a sequence of host values.
pub open spec fn host_views(hs: Seq<HostValue>) -> Seq<HostView> {
    hs.map_values(|h: HostValue| h@)
}

/// What decoding the first `k` supplied values gives, each as the type of
/// the parameter at its position: the decoded values, or the failure of the
/// first value that does not decode.
pub open spec fn decode_prefix(params: Seq<HostType>, supplied: Seq<ValueView>, k: nat) -> Result<
    Seq<HostView>,
    ErrorView,
>
    decreases k,
{
    if k == 0 {
        Ok(Seq::empty())
    } else {
        match decode_prefix(params, supplied, (k - 1) as nat) {
            Err(e) => Err(e),
            Ok(done) => match decode_spec(params[k - 1], supplied[k - 1]) {
                Ok(h) => Ok(done.push(h)),
                Err(e) => Err(e),
            },
        }
    }
}

/// What decoding the arguments of a call gives. Too few values are a
/// missing argument, reported for the first parameter without one; values
/// beyond the parameters are ignored.
pub open spec fn decode_args_spec(params: Seq<HostType>, supplied: Seq<ValueView>) -> Result<
    Seq<HostView>,
    ErrorView,
> {
    if supplied.len() < params.len() {
        Err(ErrorView::MissingArgument { index: supplied.len(), supplied: supplied.len() })
    } else {
        decode_prefix(params, supplied, params.len())
    }
}

/// Whether a result of decoding arguments stands for the given outcome.
pub open spec fn args_decoded_as(r: Result<Vec<HostValue>, Error>, m: Result<Seq<HostView>, ErrorView>) -> bool {
    match (r, m) {
        (Ok(hs), Ok(hv)) => host_views(hs@) == hv,
        (Err(e), Err(ev)) => e@ == ev,
        _ => false,
    }
}

/// Decodes the values that a call supplied, position by position, before
/// any host logic runs.
pub fn decode_args(params: &Vec<HostType>, supplied: &Vec<Value>) -> (r: Result<Vec<HostValue>, Error>)
    ensures
        args_decoded_as(r, decode_args_spec(params@, value_views(supplied@))),
{
    if supplied.len() < params.len() {
        return Err(Error::MissingArgument { index: supplied.len(), supplied: supplied.len() });
    }
    let mut out: Vec<HostValue> = Vec::new();
    let mut i: usize = 0;
    proof {
        assert(host_views(out@) =~= Seq::<HostView>::empty());
    }
    while i < params.len()
        invariant
            i <= params.len() <= supplied.len(),
            decode_prefix(params@, value_views(supplied@), i as nat) == Ok::<Seq<HostView>, ErrorView>(
                host_views(out@),
            ),
        decreases params.len() - i,
    {
        let ghost before = host_views(out@);
        let v = supplied[i].duplicate();
        assert(value_views(supplied@)[i as int] == v@);
        match decode(params[i], v) {
            Ok(h) => {
                out.push(h);
                proof {
                    assert(host_views(out@) =~= before.push(h@));
                }
            },
            Err(e) => {
                proof {
                    lemma_prefix_failure(params@, value_views(supplied@), (i + 1) as nat, params.len() as nat);
                }
                return Err(e);
            },
        }
        i = i + 1;
    }
    Ok(out)
}

/// What the native entry point of a bound function does with a call.
#[derive(Clone, Debug, PartialEq, Eq)]
pub enum Dispatch {
    /// Run the host logic on these arguments and end the call with its
    /// result.
    Run(Vec<HostValue>),
    /// Hand the engine a promise, schedule the host logic on these
    /// arguments, and settle the promise when it completes.
    Schedule(Vec<HostValue>),
    /// Throw an exception with this message; no host logic runs.
    Throw { message: String },
}

/// How the promise of an asynchronous call is settled.
#[derive(Clone, Debug, PartialEq, Eq)]
pub enum Settlement {
    /// The promise is fulfilled with this value.
    Resolve(Value),
    /// The promise is rejected with an exception that carries this message.
    Reject { message: String },
}

/// What a call with the values `supplied` of a function with the parameters
/// `params` is dispatched to.
pub open spec fn dispatched_as(
    asynchronous: bool,
    params: Seq<HostType>,
    supplied: Seq<ValueView>,
    d: Dispatch,
) -> bool {
    match decode_args_spec(params, supplied) {
        Ok(args) => if asynchronous {
            d matches Dispatch::Schedule(a) && host_views(a@) == args
        } else {
            d matches Dispatch::Run(a) && host_views(a@) == args
        },
        Err(e) => d matches Dispatch::Throw { message } && message@ == e.message(),
    }
}

/// Decides what the native entry point of a bound function does with a
/// call. The arguments are decoded first; where that fails the call throws,
/// with the failure's message, before any host logic runs.
pub fn dispatch(asynchronous: bool, params: &Vec<HostType>, supplied: &Vec<Value>) -> (d: Dispatch)
    ensures
        dispatched_as(asynchronous, params@, value_views(supplied@), d),
{
    match decode_args(params, supplied) {
        Ok(args) => if asynchronous {
            Dispatch::Schedule(args)
        } else {
            Dispatch::Run(args)
        },
        Err(e) => Dispatch::Throw { message: e.message() },
    }
}

/// What the promise of an asynchronous call is settled with.
pub open spec fn settled_as(result: Result<HostValue, Error>, s: Settlement) -> bool {
    match result {
        Ok(h) => s matches Settlement::Resolve(v) && v@ == encode_spec(h@),
        Err(e) => s matches Settlement::Reject { message } && message@ == e@.message(),
    }
}

/// Settles the promise of an asynchronous call with what the host logic
/// gave: fulfilled with the encoded result, rejected with the failure's
/// message.
pub fn settle(result: Result<HostValue, Error>) -> (s: Settlement)
    ensures
        settled_as(result, s),
{
    match result {
        Ok(h) => Settlement::Resolve(encode(h)),
        Err(e) => Settlement::Reject { message: e.message() },
    }
}

/// A failure among the first `k` values is the failure of every longer
/// prefix.
pub proof fn lemma_prefix_failure(params: Seq<HostType>, supplied: Seq<ValueView>, k: nat, n: nat)
    requires
        k <= n,
        decode_prefix(params, supplied, k) is Err,
    ensures
        decode_prefix(params, supplied, n) == decode_prefix(params, supplied, k),
    decreases n,
{
    if k < n {
        lemma_prefix_failure(params, supplied, k, (n - 1) as nat);
    }
}

/// A call with fewer values than parameters is refused as a missing
/// argument, whatever the values are.
pub proof fn lemma_arity_enforced(params: Seq<HostType>, supplied: Seq<ValueView>)
    requires
        supplied.len() < params.len(),
    ensures
        decode_args_spec(params, supplied) == Err::<Seq<HostView>, ErrorView>(
            ErrorView::MissingArgument { index: supplied.len(), supplied: supplied.len() },
        ),
{
}

/// A member `f` of a module `m`, neither of them skipped: registered nested,
/// the table exposes the module and the member below it; registered bare,
/// the table gains the member directly in the scope and nothing else, so the
/// module has no entry of its own.
pub proof fn lemma_bare_and_nested(
    table: Seq<BindingView>,
    scope: Seq<Seq<char>>,
    m: Seq<char>,
    m_config: ItemConfig,
    f: Seq<char>,
    f_config: ItemConfig,
    kind: ItemKind,
)
    requires
        !m_config.skip,
        !f_config.skip,
    ensures
        ({
            let m_name = visible_name_spec(m, m_config);
            let f_name = visible_name_spec(f, f_config);
            let after = registered(
                module_opened(table, scope, m, m_config),
                member_scope(scope, m, m_config),
                f,
                f_config,
                kind,
            );
            if m_config.bare {
                &&& after == table.push(BindingView { path: scope.push(f_name), kind })
                &&& exposes(after, scope.push(f_name))
                &&& (!exposes(table, scope.push(m_name)) && f_name != m_name ==> !exposes(
                    after,
                    scope.push(m_name),
                ))
            } else {
                &&& after == table.push(
                    BindingView { path: scope.push(m_name), kind: ItemKind::Module },
                ).push(BindingView { path: scope.push(m_name).push(f_name), kind })
                &&& exposes(after, scope.push(m_name))
                &&& exposes(after, scope.push(m_name).push(f_name))
            }
        }),
{
    let m_name = visible_name_spec(m, m_config);
    let f_name = visible_name_spec(f, f_config);
    let after = registered(
        module_opened(table, scope, m, m_config),
        member_scope(scope, m, m_config),
        f,
        f_config,
        kind,
    );
    if m_config.bare {
        assert(after[table.len() as int].path == scope.push(f_name));
        if !exposes(table, scope.push(m_name)) && f_name != m_name {
            assert(scope.push(f_name).last() != scope.push(m_name).last());
            assert forall|i: int| 0 <= i < after.len() implies (#[trigger] after[i]).path
                != scope.push(m_name) by {
                if i < table.len() {
                    assert(after[i] == table[i]);
                }
            }
        }
    } else {
        assert(after[table.len() as int].path == scope.push(m_name));
        assert(after[(table.len() + 1) as int].path == scope.push(m_name).push(f_name));
    }
}

} // verus!
