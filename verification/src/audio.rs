//! Audio input device discovery: parsing `pw-cli ls Node` output and
//! formatting device lists.
use vstd::prelude::*;
use crate::text::{
    chars_of, contains_exec, contains_seq, find, occurs_at, find_from_exec, lemma_find_from,
    lemma_split_lines_step, line_end, pattern, slice_chars, split_lines, starts_with_range,
    string_of, trim, trim_range,
};

verus! {

/// An audio input device.
#[derive(Debug, Clone, PartialEq, Eq)]
pub struct AudioDevice {
    /// Device node name (e.g. `alsa_input.usb-...`).
    pub name: String,
    /// Human-readable description.
    pub description: String,
}

impl AudioDevice {
    /// The device as (name, description).
    pub open spec fn view_pair(&self) -> (Seq<char>, Seq<char>) {
        (self.name@, self.description@)
    }
}

/// The devices found so far, the node being read, and whether it is a source.
pub struct PwScan {
    pub devices: Seq<(Seq<char>, Seq<char>)>,
    pub current: Option<(Seq<char>, Seq<char>)>,
    pub is_source: bool,
}

/// The devices with the current node added, when it is a named source.
pub open spec fn flush_node(st: PwScan) -> Seq<(Seq<char>, Seq<char>)> {
    match st.current {
        Some((name, desc)) => if st.is_source && name.len() > 0 {
            st.devices.push((name, desc))
        } else {
            st.devices
        },
        None => st.devices,
    }
}

/// The quoted value after `key` on a trimmed line, when both are present.
pub open spec fn quoted_after(t: Seq<char>, key: Seq<char>) -> Option<Seq<char>> {
    match find(t, key) {
        Some(i) => {
            let rest = t.skip(i + key.len());
            match find(rest, "\""@) {
                Some(q) => Some(rest.take(q)),
                None => None,
            }
        },
        None => None,
    }
}

/// One line of `pw-cli ls Node` output applied to the scan.
pub open spec fn pw_step(st: PwScan, line: Seq<char>) -> PwScan {
    let t = trim(line);
    let st1 = if "id "@.is_prefix_of(t) && contains_seq(t, ","@) {
        PwScan { devices: flush_node(st), current: Some((Seq::empty(), Seq::empty())), is_source: false }
    } else {
        st
    };
    let st2 = if contains_seq(t, "media.class = \"Audio/Source\""@) {
        PwScan { is_source: true, ..st1 }
    } else {
        st1
    };
    let st3 = match (st2.current, quoted_after(t, "node.name = \""@)) {
        (Some(cur), Some(n)) => PwScan { current: Some((n, cur.1)), ..st2 },
        _ => st2,
    };
    match (st3.current, quoted_after(t, "node.description = \""@)) {
        (Some(cur), Some(d)) => PwScan { current: Some((cur.0, d)), ..st3 },
        _ => st3,
    }
}

/// The scan after all lines.
pub open spec fn pw_fold(lines: Seq<Seq<char>>, st: PwScan) -> PwScan
    decreases lines.len(),
{
    if lines.len() == 0 {
        st
    } else {
        pw_fold(lines.drop_first(), pw_step(st, lines[0]))
    }
}

/// The audio sources listed in `pw-cli ls Node` output, in order.
pub open spec fn pw_sources(output: Seq<char>) -> Seq<(Seq<char>, Seq<char>)> {
    flush_node(
        pw_fold(
            split_lines(output),
            PwScan { devices: Seq::empty(), current: None, is_source: false },
        ),
    )
}

/// The views of a device list.
pub open spec fn devices_view(v: Seq<AudioDevice>) -> Seq<(Seq<char>, Seq<char>)> {
    v.map_values(|d: AudioDevice| d.view_pair())
}

/// The view of the node being read.
pub open spec fn node_view(c: Option<(Vec<char>, Vec<char>)>) -> Option<(Seq<char>, Seq<char>)> {
    match c {
        Some(c) => Some((c.0@, c.1@)),
        None => None,
    }
}

/// The quoted value after `key` in `t`, computed.
fn quoted_after_exec(t: &Vec<char>, key: &Vec<char>) -> (r: Option<Vec<char>>)
    ensures
        match r {
            Some(v) => quoted_after(t@, key@) == Some(v@),
            None => quoted_after(t@, key@) is None,
        },
{
    let i = match find_from_exec(t, key, 0) {
        Some(i) => i,
        None => return None,
    };
    proof {
        lemma_find_from(t@, key@, 0);
        assert(occurs_at(t@, key@, i as int));
        assert(i + key@.len() <= t@.len());
    }
    assert(key@.len() == key.len());
    assert(i + key.len() <= t.len());
    let rest = slice_chars(t, i + key.len(), t.len());
    assert(rest@ =~= t@.skip(i + key@.len()));
    match find_from_exec(&rest, &pattern("\""), 0) {
        Some(q) => {
            proof {
                lemma_find_from(rest@, "\""@, 0);
                reveal_strlit("\"");
            }
            let v = slice_chars(&rest, 0, q);
            assert(v@ =~= rest@.take(q as int));
            Some(v)
        },
        None => None,
    }
}

/// Adds the current node to the devices when it is a named source.
fn flush_exec(
    devices: &mut Vec<AudioDevice>,
    current: &Option<(Vec<char>, Vec<char>)>,
    is_source: bool,
)
    ensures
        devices_view(final(devices)@) == flush_node(
            PwScan {
                devices: devices_view(old(devices)@),
                current: node_view(*current),
                is_source,
            },
        ),
{
    if is_source {
        if let Some(c) = current {
            if c.0.len() > 0 {
                let d = AudioDevice { name: string_of(&c.0), description: string_of(&c.1) };
                devices.push(d);
                assert(devices_view(devices@) =~= devices_view(old(devices)@).push((c.0@, c.1@)));
            }
        }
    }
}

/// Parses `pw-cli ls Node` output for audio sources (`media.class =
/// "Audio/Source"`) with a node name. Never fails.
pub fn parse_pw_cli_output(output: &str) -> (r: Result<Vec<AudioDevice>, String>)
    ensures
        r matches Ok(d) && devices_view(d@) == pw_sources(output@),
{
    let v = chars_of(output);
    let id_prefix = pattern("id ");
    let comma = pattern(",");
    let source = pattern("media.class = \"Audio/Source\"");
    let name_key = pattern("node.name = \"");
    let desc_key = pattern("node.description = \"");
    let mut devices: Vec<AudioDevice> = Vec::new();
    let mut current: Option<(Vec<char>, Vec<char>)> = None;
    let mut is_source = false;
    let mut pos: usize = 0;
    let ghost init = PwScan { devices: Seq::empty(), current: None, is_source: false };
    assert(v@.skip(0) =~= v@);
    assert(devices_view(devices@) =~= Seq::<(Seq<char>, Seq<char>)>::empty());
    loop
        invariant_except_break
            pos <= v.len(),
            v@ == output@,
            id_prefix@ == "id "@,
            comma@ == ","@,
            source@ == "media.class = \"Audio/Source\""@,
            name_key@ == "node.name = \""@,
            desc_key@ == "node.description = \""@,
            pw_fold(split_lines(v@), init) == pw_fold(
                split_lines(v@.skip(pos as int)),
                PwScan {
                    devices: devices_view(devices@),
                    current: node_view(current),
                    is_source,
                },
            ),
        ensures
            pw_fold(split_lines(v@), init) == (PwScan {
                devices: devices_view(devices@),
                current: node_view(current),
                is_source,
            }),
            v@ == output@,
        decreases v.len() - pos,
    {
        let e = line_end(&v, pos);
        let ghost st = PwScan {
            devices: devices_view(devices@),
            current: node_view(current),
            is_source,
        };
        proof {
            lemma_split_lines_step(v@, pos as int, e as int);
            let line = v@.subrange(pos as int, e as int);
            if e < v.len() {
                let rest = split_lines(v@.skip(e + 1));
                assert((seq![line] + rest).drop_first() =~= rest);
                assert((seq![line] + rest)[0] == line);
            } else {
                assert(seq![line].drop_first() =~= Seq::<Seq<char>>::empty());
            }
        }
        let (a, b) = trim_range(&v, pos, e);
        let t = slice_chars(&v, a, b);
        let tl = t.len();
        if starts_with_range(&t, 0, tl, &id_prefix) && contains_exec(&t, &comma) {
            flush_exec(&mut devices, &current, is_source);
            is_source = false;
            current = Some((Vec::new(), Vec::new()));
        }
        if contains_exec(&t, &source) {
            is_source = true;
        }
        if current.is_some() {
            if let Some(n) = quoted_after_exec(&t, &name_key) {
                let d = match current {
                    Some(c) => c.1,
                    None => Vec::new(),
                };
                current = Some((n, d));
            }
        }
        if current.is_some() {
            if let Some(d) = quoted_after_exec(&t, &desc_key) {
                let n = match current {
                    Some(c) => c.0,
                    None => Vec::new(),
                };
                current = Some((n, d));
            }
        }
        proof {
            assert(t@.subrange(0, tl as int) =~= t@);
            assert(pw_fold(split_lines(v@.skip(pos as int)), st) == pw_fold(
                split_lines(v@.skip(pos as int)).drop_first(),
                pw_step(st, v@.subrange(pos as int, e as int)),
            ));
            let nst = pw_step(st, v@.subrange(pos as int, e as int));
            assert(pw_fold(Seq::<Seq<char>>::empty(), nst) == nst);
        }
        if e == v.len() {
            break;
        }
        pos = e + 1;
    }
    flush_exec(&mut devices, &current, is_source);
    Ok(devices)
}

/// One device as `name<TAB>description`.
pub open spec fn device_line(d: (Seq<char>, Seq<char>)) -> Seq<char> {
    d.0 + "\t"@ + d.1
}

/// Device lines joined by line feeds.
pub open spec fn join_device_lines(d: Seq<(Seq<char>, Seq<char>)>) -> Seq<char>
    decreases d.len(),
{
    if d.len() == 0 {
        Seq::empty()
    } else if d.len() == 1 {
        device_line(d[0])
    } else {
        join_device_lines(d.drop_last()) + "\n"@ + device_line(d.last())
    }
}

/// The device list as `name<TAB>description` lines, or a notice when empty.
pub fn format_device_list(devices: &[AudioDevice]) -> (r: String)
    ensures
        devices@.len() == 0 ==> r@ == "No audio input devices found"@,
        devices@.len() > 0 ==> r@ == join_device_lines(devices_view(devices@)),
{
    if devices.len() == 0 {
        return "No audio input devices found".to_string();
    }
    let mut out = String::new();
    let mut i: usize = 0;
    proof {
        broadcast use vstd::string::group_string_axioms;
    }
    while i < devices.len()
        invariant
            i <= devices@.len(),
            devices@.len() > 0,
            out@ == join_device_lines(devices_view(devices@.take(i as int))),
        decreases devices@.len() - i,
    {
        let d = &devices[i];
        if i > 0 {
            out.append("\n");
        }
        out.append(d.name.as_str());
        out.append("\t");
        out.append(d.description.as_str());
        proof {
            let dv = devices_view(devices@.take(i + 1));
            assert(dv.drop_last() =~= devices_view(devices@.take(i as int)));
            assert(dv.last() == devices@[i as int].view_pair());
            if i == 0 {
                assert(dv.len() == 1);
                assert(out@ =~= device_line(dv[0]));
            } else {
                assert(out@ =~= join_device_lines(dv.drop_last()) + "\n"@ + device_line(dv.last()));
            }
        }
        i = i + 1;
    }
    assert(devices@.take(devices@.len() as int) =~= devices@);
    out
}

} // verus!
