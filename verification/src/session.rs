//! Session initialization decisions. The browser session itself is an opaque
//! remote resource; what is decided here is everything the shell needs in
//! order to start one: which fixed local control endpoint the chosen browser
//! family is reached at, what the capability plan for a fresh session holds
//! (headless by default, plus the caller's startup arguments in their given
//! order — order matters, later flags may override earlier ones), and whether
//! the session is terminated once the batch is over. A caller-supplied
//! session is used as-is: the capability plan only applies to sessions this
//! program starts.

use vstd::prelude::*;

verus! {

/// The two supported browser families.
#[derive(Clone, Copy, PartialEq, Eq, Structural, Debug)]
pub enum BrowserFamily {
    Chrome,
    Firefox,
}

/// The fixed local control endpoint of each family's driver process.
pub open spec fn spec_control_endpoint(family: BrowserFamily) -> Seq<char> {
    match family {
        BrowserFamily::Chrome => "http://localhost:9515"@,
        BrowserFamily::Firefox => "http://localhost:4444"@,
    }
}

/// The control endpoint a new session of `family` is started against.
pub fn control_endpoint(family: BrowserFamily) -> (r: String)
    ensures
        r@ == spec_control_endpoint(family),
{
    match family {
        BrowserFamily::Chrome => "http://localhost:9515".to_owned(),
        BrowserFamily::Firefox => "http://localhost:4444".to_owned(),
    }
}

/// Whether the session is terminated after the batch regardless of whether it
/// was caller-supplied: only the Firefox path does so; the Chrome path leaves
/// the session to its caller.
pub fn quits_after_batch(family: BrowserFamily) -> (r: bool)
    ensures
        r == (family is Firefox),
{
    match family {
        BrowserFamily::Chrome => false,
        BrowserFamily::Firefox => true,
    }
}

/// The configuration a fresh session is started with: the headless flag and
/// the extra startup arguments, in the order they are to be applied.
pub struct CapabilityPlan {
    pub headless: bool,
    pub args: Vec<String>,
}

impl CapabilityPlan {
    /// A fresh plan: headless, no extra arguments yet.
    pub fn new() -> (p: CapabilityPlan)
        ensures
            p.headless,
            p.args@.len() == 0,
    {
        CapabilityPlan { headless: true, args: Vec::new() }
    }

    /// Appends one startup argument; all earlier arguments keep their place.
    pub fn add_arg(&mut self, arg: String)
        ensures
            final(self).headless == old(self).headless,
            final(self).args@ == old(self).args@.push(arg),
    {
        self.args.push(arg);
    }
}

/// The capability plan for a session this program starts: headless by
/// default, then every supplied startup argument, verbatim and in order.
pub fn build_capability_plan(extra_args: Option<Vec<String>>) -> (p: CapabilityPlan)
    ensures
        p.headless,
        match extra_args {
            Option::Some(args) => p.args@ == args@,
            Option::None => p.args@.len() == 0,
        },
{
    let mut p = CapabilityPlan::new();
    match &extra_args {
        Option::Some(args) => {
            let mut i: usize = 0;
            while i < args.len()
                invariant
                    i <= args@.len(),
                    p.headless,
                    p.args@.len() == i,
                    forall|k: int| 0 <= k < i ==> p.args@[k] == args@[k],
                decreases args@.len() - i,
            {
                p.add_arg(args[i].clone());
                i = i + 1;
            }
            proof {
                assert(p.args@ =~= args@);
            }
        },
        Option::None => {},
    }
    p
}

} // verus!
