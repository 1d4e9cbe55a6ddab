//! DNS configuration: the resolv.conf model, how its text is read, and
//! how an update is merged and rendered back.

use vstd::prelude::*;
use vstd::string::StringExecFns;
use vstd::string::StrSliceExecFns;

use crate::server::{find_char, string_push_char};

verus! {

/// The DNS configuration of a resolv.conf file: a search domain, up to
/// three name servers, and whatever other lines the file holds.
pub struct ResolvConf {
    pub search: Option<String>,
    pub dns1: Option<String>,
    pub dns2: Option<String>,
    pub dns3: Option<String>,
    pub options: Option<String>,
}

/// The deletable properties of the DNS configuration.
#[derive(Clone, Copy, Debug, PartialEq, Eq, Structural)]
pub enum DeletableResolvConfProperty {
    Dns1,
    Dns2,
    Dns3,
}

/// The view of an optional string.
pub open spec fn opt_view(o: Option<String>) -> Option<Seq<char>> {
    match o {
        Some(s) => Some(s@),
        None => None,
    }
}

/// The first capture group of the pattern's first match in the line;
/// `None` where the pattern does not match.
pub uninterp spec fn regex_capture1(pattern: Seq<char>, line: Seq<char>) -> Option<Seq<char>>;

/// Relies on regex::Regex::new and Regex::captures: the first capture
/// group of the pattern's match in the line. The result depends on the
/// pattern and the line alone.
#[verifier::external_body]
fn regex_capture1_exec(pattern: &str, line: &str) -> (r: Option<String>)
    ensures
        r matches Some(v) ==> (regex_capture1(pattern@, line@) matches Some(w) && v@ == w),
        r is None ==> regex_capture1(pattern@, line@) is None,
{
    let re = match regex::Regex::new(pattern) {
        Ok(re) => re,
        Err(_) => return None,
    };
    match re.captures(line) {
        Some(caps) => caps.get(1).map(|m| m.as_str().to_string()),
        None => None,
    }
}

/// The pattern of a search/domain line: its capture is the domain.
pub open spec fn domain_pattern_spec() -> Seq<char> {
    "^\\s*(?:search|domain)\\s+(\\S+)\\s*"@
}

fn domain_pattern() -> (r: &'static str)
    ensures
        r@ == domain_pattern_spec(),
{
    "^\\s*(?:search|domain)\\s+(\\S+)\\s*"
}

/// The pattern of a nameserver line: its capture is an IPv4 or IPv6
/// address.
pub open spec fn server_pattern_spec() -> Seq<char> {
    "^\\s*nameserver\\s+((?:(?:(?:(?:25[0-5]|(?:2[0-4]|1[0-9]|[1-9])?[0-9])\\.){3}(?:25[0-5]|(?:2[0-4]|1[0-9]|[1-9])?[0-9]))|(?:(?:(?:(?:[0-9a-fA-F]{1,4}):){6}(?:(?:(?:[0-9a-fA-F]{1,4}):(?:[0-9a-fA-F]{1,4}))|(?:(?:(?:25[0-5]|(?:2[0-4]|1[0-9]|[1-9])?[0-9])\\.){3}(?:25[0-5]|(?:2[0-4]|1[0-9]|[1-9])?[0-9]))))|(?:::(?:(?:[0-9a-fA-F]{1,4}):){5}(?:(?:(?:[0-9a-fA-F]{1,4}):(?:[0-9a-fA-F]{1,4}))|(?:(?:(?:25[0-5]|(?:2[0-4]|1[0-9]|[1-9])?[0-9])\\.){3}(?:25[0-5]|(?:2[0-4]|1[0-9]|[1-9])?[0-9]))))|(?:(?:[0-9a-fA-F]{1,4})?::(?:(?:[0-9a-fA-F]{1,4}):){4}(?:(?:(?:[0-9a-fA-F]{1,4}):(?:[0-9a-fA-F]{1,4}))|(?:(?:(?:25[0-5]|(?:2[0-4]|1[0-9]|[1-9])?[0-9])\\.){3}(?:25[0-5]|(?:2[0-4]|1[0-9]|[1-9])?[0-9]))))|(?:(?:(?:(?:[0-9a-fA-F]{1,4}):){0,1}(?:[0-9a-fA-F]{1,4}))?::(?:(?:[0-9a-fA-F]{1,4}):){3}(?:(?:(?:[0-9a-fA-F]{1,4}):(?:[0-9a-fA-F]{1,4}))|(?:(?:(?:25[0-5]|(?:2[0-4]|1[0-9]|[1-9])?[0-9])\\.){3}(?:25[0-5]|(?:2[0-4]|1[0-9]|[1-9])?[0-9]))))|(?:(?:(?:(?:[0-9a-fA-F]{1,4}):){0,2}(?:[0-9a-fA-F]{1,4}))?::(?:(?:[0-9a-fA-F]{1,4}):){2}(?:(?:(?:[0-9a-fA-F]{1,4}):(?:[0-9a-fA-F]{1,4}))|(?:(?:(?:25[0-5]|(?:2[0-4]|1[0-9]|[1-9])?[0-9])\\.){3}(?:25[0-5]|(?:2[0-4]|1[0-9]|[1-9])?[0-9]))))|(?:(?:(?:(?:[0-9a-fA-F]{1,4}):){0,3}(?:[0-9a-fA-F]{1,4}))?::(?:(?:[0-9a-fA-F]{1,4}):){1}(?:(?:(?:[0-9a-fA-F]{1,4}):(?:[0-9a-fA-F]{1,4}))|(?:(?:(?:25[0-5]|(?:2[0-4]|1[0-9]|[1-9])?[0-9])\\.){3}(?:25[0-5]|(?:2[0-4]|1[0-9]|[1-9])?[0-9]))))|(?:(?:(?:(?:[0-9a-fA-F]{1,4}):){0,4}(?:[0-9a-fA-F]{1,4}))?::(?:(?:(?:[0-9a-fA-F]{1,4}):(?:[0-9a-fA-F]{1,4}))|(?:(?:(?:25[0-5]|(?:2[0-4]|1[0-9]|[1-9])?[0-9])\\.){3}(?:25[0-5]|(?:2[0-4]|1[0-9]|[1-9])?[0-9]))))|(?:(?:(?:(?:[0-9a-fA-F]{1,4}):){0,5}(?:[0-9a-fA-F]{1,4}))?::(?:[0-9a-fA-F]{1,4}))|(?:(?:(?:(?:[0-9a-fA-F]{1,4}):){0,6}(?:[0-9a-fA-F]{1,4}))?::))))\\s*"@
}

fn server_pattern() -> (r: &'static str)
    ensures
        r@ == server_pattern_spec(),
{
    "^\\s*nameserver\\s+((?:(?:(?:(?:25[0-5]|(?:2[0-4]|1[0-9]|[1-9])?[0-9])\\.){3}(?:25[0-5]|(?:2[0-4]|1[0-9]|[1-9])?[0-9]))|(?:(?:(?:(?:[0-9a-fA-F]{1,4}):){6}(?:(?:(?:[0-9a-fA-F]{1,4}):(?:[0-9a-fA-F]{1,4}))|(?:(?:(?:25[0-5]|(?:2[0-4]|1[0-9]|[1-9])?[0-9])\\.){3}(?:25[0-5]|(?:2[0-4]|1[0-9]|[1-9])?[0-9]))))|(?:::(?:(?:[0-9a-fA-F]{1,4}):){5}(?:(?:(?:[0-9a-fA-F]{1,4}):(?:[0-9a-fA-F]{1,4}))|(?:(?:(?:25[0-5]|(?:2[0-4]|1[0-9]|[1-9])?[0-9])\\.){3}(?:25[0-5]|(?:2[0-4]|1[0-9]|[1-9])?[0-9]))))|(?:(?:[0-9a-fA-F]{1,4})?::(?:(?:[0-9a-fA-F]{1,4}):){4}(?:(?:(?:[0-9a-fA-F]{1,4}):(?:[0-9a-fA-F]{1,4}))|(?:(?:(?:25[0-5]|(?:2[0-4]|1[0-9]|[1-9])?[0-9])\\.){3}(?:25[0-5]|(?:2[0-4]|1[0-9]|[1-9])?[0-9]))))|(?:(?:(?:(?:[0-9a-fA-F]{1,4}):){0,1}(?:[0-9a-fA-F]{1,4}))?::(?:(?:[0-9a-fA-F]{1,4}):){3}(?:(?:(?:[0-9a-fA-F]{1,4}):(?:[0-9a-fA-F]{1,4}))|(?:(?:(?:25[0-5]|(?:2[0-4]|1[0-9]|[1-9])?[0-9])\\.){3}(?:25[0-5]|(?:2[0-4]|1[0-9]|[1-9])?[0-9]))))|(?:(?:(?:(?:[0-9a-fA-F]{1,4}):){0,2}(?:[0-9a-fA-F]{1,4}))?::(?:(?:[0-9a-fA-F]{1,4}):){2}(?:(?:(?:[0-9a-fA-F]{1,4}):(?:[0-9a-fA-F]{1,4}))|(?:(?:(?:25[0-5]|(?:2[0-4]|1[0-9]|[1-9])?[0-9])\\.){3}(?:25[0-5]|(?:2[0-4]|1[0-9]|[1-9])?[0-9]))))|(?:(?:(?:(?:[0-9a-fA-F]{1,4}):){0,3}(?:[0-9a-fA-F]{1,4}))?::(?:(?:[0-9a-fA-F]{1,4}):){1}(?:(?:(?:[0-9a-fA-F]{1,4}):(?:[0-9a-fA-F]{1,4}))|(?:(?:(?:25[0-5]|(?:2[0-4]|1[0-9]|[1-9])?[0-9])\\.){3}(?:25[0-5]|(?:2[0-4]|1[0-9]|[1-9])?[0-9]))))|(?:(?:(?:(?:[0-9a-fA-F]{1,4}):){0,4}(?:[0-9a-fA-F]{1,4}))?::(?:(?:(?:[0-9a-fA-F]{1,4}):(?:[0-9a-fA-F]{1,4}))|(?:(?:(?:25[0-5]|(?:2[0-4]|1[0-9]|[1-9])?[0-9])\\.){3}(?:25[0-5]|(?:2[0-4]|1[0-9]|[1-9])?[0-9]))))|(?:(?:(?:(?:[0-9a-fA-F]{1,4}):){0,5}(?:[0-9a-fA-F]{1,4}))?::(?:[0-9a-fA-F]{1,4}))|(?:(?:(?:(?:[0-9a-fA-F]{1,4}):){0,6}(?:[0-9a-fA-F]{1,4}))?::))))\\s*"
}

/// The state of reading a resolv.conf text, line by line: how many
/// nameserver lines were seen, the recognized settings, and the other
/// lines joined back with newlines.
pub struct ResolvParse {
    pub nscount: int,
    pub search: Option<Seq<char>>,
    pub dns1: Option<Seq<char>>,
    pub dns2: Option<Seq<char>>,
    pub dns3: Option<Seq<char>>,
    pub options: Seq<char>,
}

/// The empty state, before any line was read.
pub open spec fn rc_init() -> ResolvParse {
    ResolvParse {
        nscount: 0,
        search: None,
        dns1: None,
        dns2: None,
        dns3: None,
        options: Seq::<char>::empty(),
    }
}

/// Read one line: a search/domain line sets the search domain; the first
/// three nameserver lines set the name servers and later ones are
/// dropped; every other line is kept among the options.
pub open spec fn rc_line(acc: ResolvParse, line: Seq<char>) -> ResolvParse {
    match regex_capture1(domain_pattern_spec(), line) {
        Some(c) => ResolvParse { search: Some(c), ..acc },
        None => match regex_capture1(server_pattern_spec(), line) {
            Some(c) => {
                let n = acc.nscount + 1;
                if n == 1 {
                    ResolvParse { nscount: n, dns1: Some(c), ..acc }
                } else if n == 2 {
                    ResolvParse { nscount: n, dns2: Some(c), ..acc }
                } else if n == 3 {
                    ResolvParse { nscount: n, dns3: Some(c), ..acc }
                } else {
                    ResolvParse { nscount: n, ..acc }
                }
            },
            None => ResolvParse {
                options: if acc.options.len() > 0 {
                    acc.options + seq!['\n'] + line
                } else {
                    line
                },
                ..acc
            },
        },
    }
}

/// Read a whole text: one line per newline, and the text after the last
/// newline as a final line if it is nonempty.
pub open spec fn rc_parse(s: Seq<char>, acc: ResolvParse) -> ResolvParse
    decreases s.len(),
    via rc_parse_decreases
{
    match find_char(s, '\n') {
        Some(i) => rc_parse(s.skip(i + 1), rc_line(acc, s.take(i))),
        None => if s.len() > 0 {
            rc_line(acc, s)
        } else {
            acc
        },
    }
}

#[via_fn]
proof fn rc_parse_decreases(s: Seq<char>, acc: ResolvParse) {
    crate::server::lemma_find_char_bounds(s, '\n');
}

/// The state a read configuration stands in.
pub open spec fn config_matches(c: ResolvConf, p: ResolvParse) -> bool {
    &&& opt_view(c.search) == p.search
    &&& opt_view(c.dns1) == p.dns1
    &&& opt_view(c.dns2) == p.dns2
    &&& opt_view(c.dns3) == p.dns3
    &&& opt_view(c.options) == (if p.options.len() > 0 {
        Some(p.options)
    } else {
        None::<Seq<char>>
    })
}

struct RcAcc {
    nscount: usize,
    search: Option<String>,
    dns1: Option<String>,
    dns2: Option<String>,
    dns3: Option<String>,
    options: String,
}

impl RcAcc {
    spec fn view_acc(&self) -> ResolvParse {
        ResolvParse {
            nscount: self.nscount as int,
            search: opt_view(self.search),
            dns1: opt_view(self.dns1),
            dns2: opt_view(self.dns2),
            dns3: opt_view(self.dns3),
            options: self.options@,
        }
    }
}

/// Read one line into the accumulator.
fn rc_line_exec(acc: RcAcc, line: &str) -> (r: RcAcc)
    requires
        acc.nscount < usize::MAX,
    ensures
        r.view_acc() == rc_line(acc.view_acc(), line@),
        r.nscount <= acc.nscount + 1,
{
    match regex_capture1_exec(domain_pattern(), line) {
        Some(c) => {
            let r = RcAcc { search: Some(c), ..acc };
            proof {
                assert(r.view_acc() =~= rc_line(acc.view_acc(), line@));
            }
            r
        },
        None => match regex_capture1_exec(server_pattern(), line) {
            Some(c) => {
                let n = acc.nscount + 1;
                let r = if n == 1 {
                    RcAcc { nscount: n, dns1: Some(c), ..acc }
                } else if n == 2 {
                    RcAcc { nscount: n, dns2: Some(c), ..acc }
                } else if n == 3 {
                    RcAcc { nscount: n, dns3: Some(c), ..acc }
                } else {
                    RcAcc { nscount: n, ..acc }
                };
                proof {
                    assert(r.view_acc() =~= rc_line(acc.view_acc(), line@));
                }
                r
            },
            None => {
                let mut options = acc.options;
                if !options.as_str().is_empty() {
                    string_push_char(&mut options, '\n');
                    options.append(line);
                    proof {
                        assert(options@ =~= rc_line(
                            RcAcc { options: acc.options, ..acc }.view_acc(),
                            line@,
                        ).options);
                    }
                } else {
                    options = line.to_owned();
                }
                let r = RcAcc { options, ..acc };
                proof {
                    assert(r.view_acc() =~= rc_line(acc.view_acc(), line@));
                }
                r
            },
        },
    }
}

/// Read a whole resolv.conf text.
fn rc_parse_exec(data: &str, acc: RcAcc) -> (r: RcAcc)
    requires
        acc.nscount as int + data@.len() <= usize::MAX,
    ensures
        r.view_acc() == rc_parse(data@, acc.view_acc()),
    decreases data@.len(),
{
    let n = data.unicode_len();
    proof {
        crate::server::lemma_find_char_bounds(data@, '\n');
    }
    match crate::server::str_find_char(data, '\n') {
        Some(i) => {
            let line = data.substring_char(0, i);
            proof {
                assert(line@ =~= data@.take(i as int));
            }
            let next = rc_line_exec(acc, line);
            let rest = data.substring_char(i + 1, n);
            proof {
                assert(rest@ =~= data@.skip(i as int + 1));
            }
            rc_parse_exec(rest, next)
        },
        None => {
            if n > 0 {
                rc_line_exec(acc, data)
            } else {
                acc
            }
        },
    }
}

/// Read DNS configuration from the text of a resolv.conf file.
pub fn read_etc_resolv_conf(data: &str) -> (r: ResolvConf)
    ensures
        config_matches(r, rc_parse(data@, rc_init())),
{
    let total_chars = data.unicode_len();
    proof {
        assert(total_chars == data@.len());
        assert(data@.len() <= usize::MAX);
    }
    let acc = rc_parse_exec(
        data,
        RcAcc {
            nscount: 0,
            search: None,
            dns1: None,
            dns2: None,
            dns3: None,
            options: String::new(),
        },
    );
    let options = if acc.options.as_str().is_empty() {
        None
    } else {
        Some(acc.options)
    };
    ResolvConf { search: acc.search, dns1: acc.dns1, dns2: acc.dns2, dns3: acc.dns3, options }
}

/// Whether the delete list holds the given property.
pub open spec fn deletes(delete: Option<Seq<DeletableResolvConfProperty>>, p: DeletableResolvConfProperty) -> bool {
    match delete {
        Some(d) => d.contains(p),
        None => false,
    }
}

/// What one name-server slot becomes: an update wins; otherwise a delete
/// clears it; otherwise it is kept.
pub open spec fn merged_slot(cur: Option<Seq<char>>, upd: Option<Seq<char>>, del: bool) -> Option<
    Seq<char>,
> {
    match upd {
        Some(u) => Some(u),
        None => if del {
            None
        } else {
            cur
        },
    }
}

/// The rendered text of a configuration: a search line, one nameserver
/// line per configured server, then the other lines.
pub open spec fn render_spec(search: Option<Seq<char>>, dns1: Option<Seq<char>>, dns2: Option<Seq<char>>, dns3: Option<Seq<char>>, options: Option<Seq<char>>) -> Seq<char> {
    (match search {
        Some(s) => "search "@ + s + "\n"@,
        None => Seq::<char>::empty(),
    }) + (match dns1 {
        Some(s) => "nameserver "@ + s + "\n"@,
        None => Seq::<char>::empty(),
    }) + (match dns2 {
        Some(s) => "nameserver "@ + s + "\n"@,
        None => Seq::<char>::empty(),
    }) + (match dns3 {
        Some(s) => "nameserver "@ + s + "\n"@,
        None => Seq::<char>::empty(),
    }) + (match options {
        Some(o) => o,
        None => Seq::<char>::empty(),
    })
}

/// Append one setting line: the key, a space, the value, a newline.
fn push_line(out: &mut String, key: &str, value: &str)
    ensures
        final(out)@ == old(out)@ + key@ + value@ + "\n"@,
{
    out.append(key);
    out.append(value);
    out.append("\n");
}

/// Whether the list of deletions holds the given property.
fn contains_delete(d: &Vec<DeletableResolvConfProperty>, p: DeletableResolvConfProperty) -> (r:
    bool)
    ensures
        r == d@.contains(p),
{
    let mut i: usize = 0;
    while i < d.len()
        invariant
            0 <= i <= d@.len(),
            forall|k: int| 0 <= k < i ==> d@[k] != p,
        decreases d@.len() - i,
    {
        if d[i] == p {
            return true;
        }
        i += 1;
    }
    false
}

/// Render a configuration as resolv.conf text.
#[verifier::rlimit(60)]
fn render_config(
    search: &Option<String>,
    dns1: &Option<String>,
    dns2: &Option<String>,
    dns3: &Option<String>,
    options: &Option<String>,
) -> (r: String)
    ensures
        r@ == render_spec(
            opt_view(*search),
            opt_view(*dns1),
            opt_view(*dns2),
            opt_view(*dns3),
            opt_view(*options),
        ),
{
    let mut data = String::new();
    match search {
        Some(s) => push_line(&mut data, "search ", s.as_str()),
        None => {},
    }
    match dns1 {
        Some(s) => push_line(&mut data, "nameserver ", s.as_str()),
        None => {},
    }
    match dns2 {
        Some(s) => push_line(&mut data, "nameserver ", s.as_str()),
        None => {},
    }
    match dns3 {
        Some(s) => push_line(&mut data, "nameserver ", s.as_str()),
        None => {},
    }
    match options {
        Some(o) => data.append(o.as_str()),
        None => {},
    }
    data
}

/// Merge an update into the current DNS configuration and render the new
/// file text. Deletions are applied first, then the update's set fields
/// replace the current ones; the other lines are kept as they are.
pub fn update_dns(config: ResolvConf, update: ResolvConf, delete: Option<
    Vec<DeletableResolvConfProperty>,
>) -> (r: (ResolvConf, String))
    ensures
        ({
            let del = match delete {
                Some(d) => Some(d@),
                None => None::<Seq<DeletableResolvConfProperty>>,
            };
            &&& opt_view(r.0.search) == merged_slot(
                opt_view(config.search),
                opt_view(update.search),
                false,
            )
            &&& opt_view(r.0.dns1) == merged_slot(
                opt_view(config.dns1),
                opt_view(update.dns1),
                deletes(del, DeletableResolvConfProperty::Dns1),
            )
            &&& opt_view(r.0.dns2) == merged_slot(
                opt_view(config.dns2),
                opt_view(update.dns2),
                deletes(del, DeletableResolvConfProperty::Dns2),
            )
            &&& opt_view(r.0.dns3) == merged_slot(
                opt_view(config.dns3),
                opt_view(update.dns3),
                deletes(del, DeletableResolvConfProperty::Dns3),
            )
            &&& opt_view(r.0.options) == opt_view(config.options)
            &&& r.1@ == render_spec(
                opt_view(r.0.search),
                opt_view(r.0.dns1),
                opt_view(r.0.dns2),
                opt_view(r.0.dns3),
                opt_view(r.0.options),
            )
        }),
{
    let (del1, del2, del3) = match &delete {
        Some(d) => (
            contains_delete(d, DeletableResolvConfProperty::Dns1),
            contains_delete(d, DeletableResolvConfProperty::Dns2),
            contains_delete(d, DeletableResolvConfProperty::Dns3),
        ),
        None => (false, false, false),
    };
    let search = match update.search {
        Some(s) => Some(s),
        None => config.search,
    };
    let dns1 = match update.dns1 {
        Some(s) => Some(s),
        None => if del1 {
            None
        } else {
            config.dns1
        },
    };
    let dns2 = match update.dns2 {
        Some(s) => Some(s),
        None => if del2 {
            None
        } else {
            config.dns2
        },
    };
    let dns3 = match update.dns3 {
        Some(s) => Some(s),
        None => if del3 {
            None
        } else {
            config.dns3
        },
    };
    let options = config.options;
    let data = render_config(&search, &dns1, &dns2, &dns3, &options);
    let merged = ResolvConf { search, dns1, dns2, dns3, options };
    (merged, data)
}

} // verus!
