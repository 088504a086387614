//! Argument-list builder for the window manager's query command.
//!
//! A query names at most one selection domain (monitor, desktop or node);
//! the manager rejects an invocation with two domain flags, so setting a
//! selector always replaces the whole list rather than appending to it.

use vstd::prelude::*;
use vstd::string::StringExecFns;

verus! {

/// The characters of one decimal digit.
pub open spec fn decimal_digit(d: nat) -> Seq<char> {
    if d == 0 {
        "0"@
    } else if d == 1 {
        "1"@
    } else if d == 2 {
        "2"@
    } else if d == 3 {
        "3"@
    } else if d == 4 {
        "4"@
    } else if d == 5 {
        "5"@
    } else if d == 6 {
        "6"@
    } else if d == 7 {
        "7"@
    } else if d == 8 {
        "8"@
    } else {
        "9"@
    }
}

/// The usual decimal rendering of a number, most significant digit first,
/// with no leading zero except on zero itself.
pub open spec fn decimal(n: nat) -> Seq<char>
    decreases n,
{
    if n < 10 {
        decimal_digit(n)
    } else {
        decimal(n / 10) + decimal_digit(n % 10)
    }
}

fn digit_str(d: usize) -> (r: &'static str)
    requires
        d < 10,
    ensures
        r@ == decimal_digit(d as nat),
{
    match d {
        0 => "0",
        1 => "1",
        2 => "2",
        3 => "3",
        4 => "4",
        5 => "5",
        6 => "6",
        7 => "7",
        8 => "8",
        _ => "9",
    }
}

/// Renders a numeric identifier the way the manager's command line takes it.
pub fn decimal_string(n: usize) -> (r: String)
    ensures
        r@ == decimal(n as nat),
    decreases n,
{
    if n < 10 {
        digit_str(n).to_owned()
    } else {
        let mut s = decimal_string(n / 10);
        s.append(digit_str(n % 10));
        s
    }
}

/// The program name of the window manager's control tool.
pub fn prog() -> (r: String)
    ensures
        r@ == "bspc"@,
{
    "bspc".to_owned()
}

/// The fixed arguments of a full-state dump invocation.
pub fn dump_args() -> (r: Vec<String>)
    ensures
        r@.len() == 2,
        r@[0]@ == "wm"@,
        r@[1]@ == "-d"@,
{
    let mut v: Vec<String> = Vec::new();
    v.push("wm".to_owned());
    v.push("-d".to_owned());
    v
}

/// The base argument of every query invocation.
pub fn query_args() -> (r: Vec<String>)
    ensures
        r@.len() == 1,
        r@[0]@ == "query"@,
{
    let mut v: Vec<String> = Vec::new();
    v.push("query".to_owned());
    v
}

/// Builds the argument list for one query against the window manager.
pub struct Query {
    args: Vec<String>,
}

impl View for Query {
    type V = Seq<Seq<char>>;

    closed spec fn view(&self) -> Seq<Seq<char>> {
        self.args.deep_view()
    }
}

/// The argument list a fresh builder starts from.
pub open spec fn base_args() -> Seq<Seq<char>> {
    seq!["query"@]
}

/// The list after a monitor selection with the given name.
pub open spec fn monitor_sel(args: Seq<Seq<char>>, name: Seq<char>) -> Seq<Seq<char>> {
    if name.len() == 0 {
        args
    } else {
        seq!["query"@, "-m"@, name]
    }
}

/// The list after a desktop selection with the given name.
pub open spec fn desktop_sel(args: Seq<Seq<char>>, name: Seq<char>) -> Seq<Seq<char>> {
    if name.len() == 0 {
        args
    } else {
        seq!["query"@, "-d"@, name]
    }
}

/// The list after a node selection with the given identifier.
pub open spec fn node_sel(args: Seq<Seq<char>>, id: nat) -> Seq<Seq<char>> {
    seq!["query"@, "-n"@, decimal(id)]
}

/// The finished list of a tree request: a bare domain flag is injected when
/// no selector was set, and the tree flag closes the list.
pub open spec fn tree_args(args: Seq<Seq<char>>, flag: Seq<char>) -> Seq<Seq<char>> {
    if args.len() == 1 {
        args + seq![flag, "-T"@]
    } else {
        args + seq!["-T"@]
    }
}

/// How often one argument occurs in a list.
pub open spec fn count_of(args: Seq<Seq<char>>, x: Seq<char>) -> nat
    decreases args.len(),
{
    if args.len() == 0 {
        0
    } else {
        (if args[0] == x {
            1nat
        } else {
            0nat
        }) + count_of(args.skip(1), x)
    }
}

impl Query {
    pub fn new() -> (r: Self)
        ensures
            r@ == base_args(),
    {
        let r = Query { args: query_args() };
        proof {
            assert(r@ =~= base_args());
        }
        r
    }

    /// A read-only look at the assembled arguments.
    pub fn args(&self) -> (r: &Vec<String>)
        ensures
            r.deep_view() == self@,
    {
        &self.args
    }

    /// Selects a monitor by name, replacing any earlier selector; an empty
    /// name leaves the builder as it was.
    pub fn monitor(self, name: &str) -> (r: Self)
        ensures
            r@ == monitor_sel(self@, name@),
    {
        if name.is_empty() {
            return self;
        }
        let mut args = query_args();
        args.push("-m".to_owned());
        args.push(name.to_owned());
        let r = Query { args };
        proof {
            assert(r@ =~= seq!["query"@, "-m"@, name@]);
        }
        r
    }

    /// Selects a desktop by name, replacing any earlier selector; an empty
    /// name leaves the builder as it was.
    pub fn desktop(self, name: &str) -> (r: Self)
        ensures
            r@ == desktop_sel(self@, name@),
    {
        if name.is_empty() {
            return self;
        }
        let mut args = query_args();
        args.push("-d".to_owned());
        args.push(name.to_owned());
        let r = Query { args };
        proof {
            assert(r@ =~= seq!["query"@, "-d"@, name@]);
        }
        r
    }

    /// Selects a node by identifier, replacing any earlier selector.
    pub fn node(self, id: usize) -> (r: Self)
        ensures
            r@ == node_sel(self@, id as nat),
    {
        let mut args = query_args();
        args.push("-n".to_owned());
        args.push(decimal_string(id));
        let r = Query { args };
        proof {
            assert(r@ =~= seq!["query"@, "-n"@, decimal(id as nat)]);
        }
        r
    }

    /// Finishes the list for a monitor tree request.
    pub fn monitor_tree_args(&mut self)
        ensures
            final(self)@ == tree_args(old(self)@, "-m"@),
    {
        if self.args.len() == 1 {
            self.args.push("-m".to_owned());
        }
        self.args.push("-T".to_owned());
        proof {
            if old(self)@.len() == 1 {
                assert(self@ =~= old(self)@ + seq!["-m"@, "-T"@]);
            } else {
                assert(self@ =~= old(self)@ + seq!["-T"@]);
            }
        }
    }

    /// Finishes the list for a desktop tree request.
    pub fn desktop_tree_args(&mut self)
        ensures
            final(self)@ == tree_args(old(self)@, "-d"@),
    {
        if self.args.len() == 1 {
            self.args.push("-d".to_owned());
        }
        self.args.push("-T".to_owned());
        proof {
            if old(self)@.len() == 1 {
                assert(self@ =~= old(self)@ + seq!["-d"@, "-T"@]);
            } else {
                assert(self@ =~= old(self)@ + seq!["-T"@]);
            }
        }
    }

    /// Finishes the list for a node tree request.
    pub fn node_tree_args(&mut self)
        ensures
            final(self)@ == tree_args(old(self)@, "-n"@),
    {
        if self.args.len() == 1 {
            self.args.push("-n".to_owned());
        }
        self.args.push("-T".to_owned());
        proof {
            if old(self)@.len() == 1 {
                assert(self@ =~= old(self)@ + seq!["-n"@, "-T"@]);
            } else {
                assert(self@ =~= old(self)@ + seq!["-T"@]);
            }
        }
    }
}

/// Setting the monitor selector a second time with a non-empty name keeps
/// only the later name, whatever the list held before: both flags are never
/// present at once.
pub proof fn lemma_monitor_selector_last_wins(
    args: Seq<Seq<char>>,
    first: Seq<char>,
    second: Seq<char>,
)
    requires
        second.len() > 0,
    ensures
        monitor_sel(monitor_sel(args, first), second) == monitor_sel(args, second),
        monitor_sel(args, second) == seq!["query"@, "-m"@, second],
{
}

/// The desktop selector replaces an earlier selection in the same way.
pub proof fn lemma_desktop_selector_last_wins(
    args: Seq<Seq<char>>,
    first: Seq<char>,
    second: Seq<char>,
)
    requires
        second.len() > 0,
    ensures
        desktop_sel(desktop_sel(args, first), second) == desktop_sel(args, second),
        desktop_sel(args, second) == seq!["query"@, "-d"@, second],
{
}

/// A tree request on a builder with no selector set carries exactly one
/// domain flag — never zero, never two — and it stands before the tree flag.
pub proof fn lemma_tree_args_default_selector(args: Seq<Seq<char>>, flag: Seq<char>)
    requires
        args == base_args(),
        flag == "-m"@ || flag == "-d"@ || flag == "-n"@,
    ensures
        tree_args(args, flag) == seq!["query"@, flag, "-T"@],
        count_of(tree_args(args, flag), "-m"@) + count_of(tree_args(args, flag), "-d"@)
            + count_of(tree_args(args, flag), "-n"@) == 1,
        tree_args(args, flag).last() == "-T"@,
{
    reveal_strlit("query");
    reveal_strlit("-m");
    reveal_strlit("-d");
    reveal_strlit("-n");
    reveal_strlit("-T");
    let r = tree_args(args, flag);
    assert(r =~= seq!["query"@, flag, "-T"@]);
    assert forall|x: Seq<char>| count_of(r, x) == (if r[0] == x {
        1nat
    } else {
        0nat
    }) + (if r[1] == x {
        1nat
    } else {
        0nat
    }) + (if r[2] == x {
        1nat
    } else {
        0nat
    }) by {
        let a1 = r.skip(1);
        let a2 = a1.skip(1);
        let a3 = a2.skip(1);
        assert(a3.len() == 0);
        assert(count_of(a3, x) == 0);
        assert(count_of(a2, x) == (if a2[0] == x {
            1nat
        } else {
            0nat
        }) + count_of(a3, x));
        assert(count_of(a1, x) == (if a1[0] == x {
            1nat
        } else {
            0nat
        }) + count_of(a2, x));
        assert(count_of(r, x) == (if r[0] == x {
            1nat
        } else {
            0nat
        }) + count_of(a1, x));
        assert(a1[0] == r[1]);
        assert(a2[0] == r[2]);
    }
    assert("query"@.len() == 5 && "-m"@.len() == 2 && "-d"@.len() == 2 && "-n"@.len() == 2
        && "-T"@.len() == 2);
    assert("-m"@[1] == 'm' && "-d"@[1] == 'd' && "-n"@[1] == 'n' && "-T"@[1] == 'T');
}

} // verus!
