use vstd::prelude::*;

verus! {

/// The place where a plugin leaves the hook that builds its judger. At most one hook is
/// held; a later registration replaces an earlier one.
pub struct PluginList<H> {
    hook: Option<H>,
}

impl<H> View for PluginList<H> {
    type V = Option<H>;

    closed spec fn view(&self) -> Option<H> {
        self.hook
    }
}

impl<H> PluginList<H> {
    /// A list in which no plugin has registered.
    pub fn new() -> (list: Self)
        ensures
            list@ is None,
    {
        PluginList { hook: None }
    }
}

/// What looking up a plugin in a list with the hook `v` may give: nothing where no hook is
/// registered, else what one call of the hook returns.
pub open spec fn found_by<H: Fn() -> J, J>(v: Option<H>, r: Option<J>) -> bool {
    match v {
        None => r is None,
        Some(h) => r matches Some(j) && call_ensures(h, (), j),
    }
}

/// Registers the hook that builds the plugin's judger, replacing any hook registered before.
pub fn register_plugin<H>(list: &mut PluginList<H>, create_hook: H)
    ensures
        final(list)@ == Some(create_hook),
{
    list.hook = Some(create_hook);
}

/// Builds the judger of the registered plugin, by one call of its hook; `None` where no
/// plugin has registered.
pub fn find_plugin<H: Fn() -> J, J>(list: &PluginList<H>) -> (r: Option<J>)
    requires
        list@ matches Some(h) ==> call_requires(h, ()),
    ensures
        found_by(list@, r),
{
    match &list.hook {
        Some(hook) => Some(hook()),
        None => None,
    }
}

/// A list in which nothing has registered yields no judger.
pub proof fn lemma_nothing_registered_finds_nothing<H: Fn() -> J, J>(r: Option<J>)
    requires
        found_by(None::<H>, r),
    ensures
        r is None,
{
}

/// After `create_hook` has been registered (whatever was registered before), looking up the
/// plugin yields a judger, and it is one that `create_hook` builds.
pub proof fn lemma_find_after_register<H: Fn() -> J, J>(create_hook: H, r: Option<J>)
    requires
        found_by(Some(create_hook), r),
    ensures
        r matches Some(j) && call_ensures(create_hook, (), j),
{
}

} // verus!
