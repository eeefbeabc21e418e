//! The PulseAudio side: the `pactl`, `pacat` and `parec` command lines, and
//! the reading of `pactl` listings.
use vstd::prelude::*;
use crate::text::{
    chars_of, concat, concat3, contains, first_token, first_token_of, has_sub, lines, lines_of,
    push_str, string_of, views,
};

verus! {

broadcast use vstd::string::group_string_axioms;

/// `sink_name=<name>_sink`, the property that marks the null sink.
pub open spec fn sink_property(name: Seq<char>) -> Seq<char> {
    "sink_name="@ + name + "_sink"@
}

/// `source_name=<name>`, the property that marks the virtual source.
pub open spec fn source_property(name: Seq<char>) -> Seq<char> {
    "source_name="@ + name
}

/// Arguments of `pactl` that load the null sink the phone's audio is played into.
pub open spec fn null_sink_args_spec(name: Seq<char>) -> Seq<Seq<char>> {
    seq![
        "load-module"@,
        "module-null-sink"@,
        sink_property(name),
        "sink_properties=device.description=AudioSource_Buffer"@,
    ]
}

/// Arguments of `pactl` that load the virtual microphone over the sink's monitor.
pub open spec fn virtual_source_args_spec(name: Seq<char>) -> Seq<Seq<char>> {
    seq![
        "load-module"@,
        "module-virtual-source"@,
        source_property(name),
        "master="@ + name + "_sink.monitor"@,
        "source_properties=device.description=AudioSource_Microphone device.class=sound device.icon_name=audio-input-microphone"@,
    ]
}

pub fn null_sink_args(name: &str) -> (out: Vec<String>)
    ensures
        views(out@) == null_sink_args_spec(name@),
{
    let mut out: Vec<String> = Vec::new();
    push_str(&mut out, "load-module");
    push_str(&mut out, "module-null-sink");
    let p = concat3("sink_name=", name, "_sink");
    push_str(&mut out, p.as_str());
    push_str(&mut out, "sink_properties=device.description=AudioSource_Buffer");
    assert(views(out@) =~= null_sink_args_spec(name@));
    out
}

pub fn virtual_source_args(name: &str) -> (out: Vec<String>)
    ensures
        views(out@) == virtual_source_args_spec(name@),
{
    let mut out: Vec<String> = Vec::new();
    push_str(&mut out, "load-module");
    push_str(&mut out, "module-virtual-source");
    let p = concat("source_name=", name);
    push_str(&mut out, p.as_str());
    let m = concat3("master=", name, "_sink.monitor");
    push_str(&mut out, m.as_str());
    push_str(
        &mut out,
        "source_properties=device.description=AudioSource_Microphone device.class=sound device.icon_name=audio-input-microphone",
    );
    assert(views(out@) =~= virtual_source_args_spec(name@));
    out
}

/// `pactl list modules short`.
pub fn list_modules_args() -> (out: Vec<String>)
    ensures
        views(out@) == seq!["list"@, "modules"@, "short"@],
{
    let mut out: Vec<String> = Vec::new();
    push_str(&mut out, "list");
    push_str(&mut out, "modules");
    push_str(&mut out, "short");
    assert(views(out@) =~= seq!["list"@, "modules"@, "short"@]);
    out
}

/// `pactl list short sources`.
pub fn list_sources_args() -> (out: Vec<String>)
    ensures
        views(out@) == seq!["list"@, "short"@, "sources"@],
{
    let mut out: Vec<String> = Vec::new();
    push_str(&mut out, "list");
    push_str(&mut out, "short");
    push_str(&mut out, "sources");
    assert(views(out@) =~= seq!["list"@, "short"@, "sources"@]);
    out
}

/// `pactl unload-module <id>`.
pub fn unload_module_args(id: &str) -> (out: Vec<String>)
    ensures
        views(out@) == seq!["unload-module"@, id@],
{
    let mut out: Vec<String> = Vec::new();
    push_str(&mut out, "unload-module");
    push_str(&mut out, id);
    assert(views(out@) =~= seq!["unload-module"@, id@]);
    out
}

/// `pactl set-source-volume <name> <level>`.
pub fn set_volume_args(name: &str, level: &str) -> (out: Vec<String>)
    ensures
        views(out@) == seq!["set-source-volume"@, name@, level@],
{
    let mut out: Vec<String> = Vec::new();
    push_str(&mut out, "set-source-volume");
    push_str(&mut out, name);
    push_str(&mut out, level);
    assert(views(out@) =~= seq!["set-source-volume"@, name@, level@]);
    out
}

/// The stream format `pacat` plays, after its device arguments.
pub open spec fn pacat_format_spec() -> Seq<Seq<char>> {
    seq!["--format=s16le"@, "--channels=1"@, "--rate=44100"@, "--latency-msec=300"@]
}

fn push_pacat_format(out: &mut Vec<String>)
    ensures
        views(final(out)@) == views(old(out)@) + pacat_format_spec(),
{
    let ghost before = views(out@);
    push_str(out, "--format=s16le");
    push_str(out, "--channels=1");
    push_str(out, "--rate=44100");
    push_str(out, "--latency-msec=300");
    assert(views(out@) =~= before + pacat_format_spec());
}

/// `pacat` playing into the null sink, with the device as a separate argument.
pub fn pacat_args(name: &str) -> (out: Vec<String>)
    ensures
        views(out@) == seq!["--playback"@, "--device"@, name@ + "_sink"@] + pacat_format_spec(),
{
    let mut out: Vec<String> = Vec::new();
    push_str(&mut out, "--playback");
    push_str(&mut out, "--device");
    let d = concat(name, "_sink");
    push_str(&mut out, d.as_str());
    let ghost head = views(out@);
    assert(head =~= seq!["--playback"@, "--device"@, name@ + "_sink"@]);
    push_pacat_format(&mut out);
    out
}

/// `pacat` playing into the null sink, with the device given as `--device=`.
pub fn pacat_inline_device_args(name: &str) -> (out: Vec<String>)
    ensures
        views(out@) == seq!["--playback"@, "--device="@ + name@ + "_sink"@] + pacat_format_spec(),
{
    let mut out: Vec<String> = Vec::new();
    push_str(&mut out, "--playback");
    let d = concat3("--device=", name, "_sink");
    push_str(&mut out, d.as_str());
    let ghost head = views(out@);
    assert(head =~= seq!["--playback"@, "--device="@ + name@ + "_sink"@]);
    push_pacat_format(&mut out);
    out
}

/// `parec` recording the virtual source.
pub fn parec_args(source: &str) -> (out: Vec<String>)
    ensures
        views(out@) == seq!["-d"@, source@, "--format=s16le"@, "--channels=1"@],
{
    let mut out: Vec<String> = Vec::new();
    push_str(&mut out, "-d");
    push_str(&mut out, source);
    push_str(&mut out, "--format=s16le");
    push_str(&mut out, "--channels=1");
    assert(views(out@) =~= seq!["-d"@, source@, "--format=s16le"@, "--channels=1"@]);
    out
}

// ------------------------------------------------------------------
// Finding the modules that an earlier run left loaded.

/// A line of `pactl list modules short` that describes one of our modules.
pub open spec fn module_line_matches(line: Seq<char>, name: Seq<char>) -> bool {
    ||| has_sub(line, "module-virtual-source"@) && has_sub(line, source_property(name))
    ||| has_sub(line, "module-null-sink"@) && has_sub(line, sink_property(name))
    ||| has_sub(line, "module-pipe-source"@) && has_sub(line, source_property(name))
}

/// The module ids (first field) of the matching lines, in order.
pub open spec fn module_ids(ls: Seq<Seq<char>>, name: Seq<char>) -> Seq<Seq<char>>
    decreases ls.len(),
{
    if ls.len() == 0 {
        Seq::<Seq<char>>::empty()
    } else {
        let rest = module_ids(ls.drop_last(), name);
        let l = ls.last();
        if module_line_matches(l, name) && first_token(l) is Some {
            rest.push(first_token(l)->0)
        } else {
            rest
        }
    }
}

/// The ids of the modules named after `name` in a `pactl list modules short`
/// listing, in the order of the listing.
pub fn modules_to_unload(listing: &str, name: &str) -> (out: Vec<String>)
    ensures
        views(out@) == module_ids(lines(listing@), name@),
{
    let text = chars_of(listing);
    let ls = lines_of(&text);
    let vs = chars_of("module-virtual-source");
    let ns = chars_of("module-null-sink");
    let ps = chars_of("module-pipe-source");
    let sp_s = concat("source_name=", name);
    let sp = chars_of(sp_s.as_str());
    let kp_s = concat3("sink_name=", name, "_sink");
    let kp = chars_of(kp_s.as_str());
    let ghost all = lines(listing@);
    let mut out: Vec<String> = Vec::new();
    let mut i: usize = 0;
    assert(all.take(0) =~= Seq::<Seq<char>>::empty());
    while i < ls.len()
        invariant
            i <= ls@.len(),
            all == lines(listing@),
            ls@.map_values(|x: Vec<char>| x@) == all,
            vs@ == "module-virtual-source"@,
            ns@ == "module-null-sink"@,
            ps@ == "module-pipe-source"@,
            sp@ == source_property(name@),
            kp@ == sink_property(name@),
            views(out@) == module_ids(all.take(i as int), name@),
        decreases ls.len() - i,
    {
        let line = &ls[i];
        assert(line@ == all[i as int]);
        let hit = (contains(line, &vs) && contains(line, &sp)) || (contains(line, &ns) && contains(
            line,
            &kp,
        )) || (contains(line, &ps) && contains(line, &sp));
        assert(all.take(i + 1).drop_last() =~= all.take(i as int));
        assert(all.take(i + 1).last() == line@);
        if hit {
            if let Some(tok) = first_token_of(line) {
                let ghost before = views(out@);
                out.push(string_of(&tok));
                assert(views(out@) =~= before.push(tok@));
            }
        }
        i = i + 1;
    }
    assert(all.take(ls@.len() as int) =~= all);
    out
}

/// How many times the leftover modules are looked for and unloaded.
pub const UNLOAD_ROUNDS: u32 = 3;

/// What a round of unloading does.
pub enum UnloadStep {
    /// Nothing (more) to unload, or the listing could not be had: stop.
    Stop,
    /// Unload these modules, wait `pause_ms`, and run another round if `again`.
    Unload { ids: Vec<String>, pause_ms: u64, again: bool },
}

/// One round of removing our modules: `listing` is the output of
/// `pactl list modules short`, `None` when that command could not be run.
pub fn unload_round(round: u32, listing: Option<&str>, name: &str) -> (step: UnloadStep)
    requires
        round < UNLOAD_ROUNDS,
    ensures
        match step {
            UnloadStep::Stop => listing is None || module_ids(lines(listing->0@), name@).len()
                == 0,
            UnloadStep::Unload { ids, pause_ms, again } => {
                &&& listing matches Some(l)
                &&& views(ids@) == module_ids(lines(l@), name@)
                &&& ids@.len() > 0
                &&& pause_ms == 500
                &&& again == (round + 1 < UNLOAD_ROUNDS)
            },
        },
{
    match listing {
        None => UnloadStep::Stop,
        Some(l) => {
            let ids = modules_to_unload(l, name);
            if ids.len() == 0 {
                UnloadStep::Stop
            } else {
                UnloadStep::Unload { ids, pause_ms: 500, again: round + 1 < UNLOAD_ROUNDS }
            }
        },
    }
}

/// Whether a `pactl list short sources` listing names `source`.
pub fn source_listed(listing: &str, source: &str) -> (b: bool)
    ensures
        b == has_sub(listing@, source@),
{
    crate::text::str_contains(listing, source)
}

/// Whether a `pactl list modules short` listing still holds our null sink.
pub fn sink_listed(listing: &str, name: &str) -> (b: bool)
    ensures
        b == has_sub(listing@, sink_property(name@)),
{
    let p = concat3("sink_name=", name, "_sink");
    crate::text::str_contains(listing, p.as_str())
}

} // verus!
