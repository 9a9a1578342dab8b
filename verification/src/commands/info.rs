//! `mimik info <voice>`: the manifest and effect chain of an installed voice.

use vstd::prelude::*;
use crate::text::views;
use crate::voice::VoiceManifest;

verus! {

/// The lines that describe a manifest: name, id, engine, version, and the
/// description where there is one.
pub open spec fn manifest_lines(m: VoiceManifest) -> Seq<Seq<char>> {
    seq![
        "Name:        "@ + m.name@,
        "ID:          "@ + m.id@,
        "Engine:      "@ + m.engine@,
        "Version:     "@ + m.version@,
    ] + match m.description {
        Some(d) => seq!["Description: "@ + d@],
        None => Seq::<Seq<char>>::empty(),
    }
}

pub open spec fn unknown_voice_lines(voice: Seq<char>) -> Seq<Seq<char>> {
    seq!["Unknown voice: '"@ + voice + "'"@, "Run 'mimik list' to see installed voices."@]
}

pub open spec fn spec_info(
    voice: Seq<char>,
    manifest: Option<VoiceManifest>,
    effect_lines: Seq<Seq<char>>,
) -> Seq<Seq<char>> {
    match manifest {
        None => unknown_voice_lines(voice),
        Some(m) => manifest_lines(m) + (if m.spec_is_dsp() {
            effect_lines
        } else {
            Seq::<Seq<char>>::empty()
        }) + seq!["Status:      installed"@],
    }
}

/// For a DSP voice, `info` shows the manifest lines, then the effect lines
/// in their given order, then the status line.
pub proof fn lemma_info_shows_chain_in_order(
    voice: Seq<char>,
    m: VoiceManifest,
    effect_lines: Seq<Seq<char>>,
)
    requires
        m.spec_is_dsp(),
    ensures
        ({
            let r = spec_info(voice, Some(m), effect_lines);
            let n = manifest_lines(m).len();
            &&& r.len() == n + effect_lines.len() + 1
            &&& r.subrange(0, n as int) == manifest_lines(m)
            &&& r.subrange(n as int, (n + effect_lines.len()) as int) == effect_lines
            &&& r.last() == "Status:      installed"@
        }),
{
    let r = spec_info(voice, Some(m), effect_lines);
    let n = manifest_lines(m).len();
    assert(r.subrange(0, n as int) =~= manifest_lines(m));
    assert(r.subrange(n as int, (n + effect_lines.len()) as int) =~= effect_lines);
}

/// For a voice of another engine, `info` shows the manifest lines and the
/// status line, and no effect lines.
pub proof fn lemma_info_hides_chain_of_other_engines(
    voice: Seq<char>,
    m: VoiceManifest,
    effect_lines: Seq<Seq<char>>,
)
    requires
        !m.spec_is_dsp(),
    ensures
        spec_info(voice, Some(m), effect_lines) == manifest_lines(m).push(
            "Status:      installed"@,
        ),
{
    assert(spec_info(voice, Some(m), effect_lines) =~= manifest_lines(m).push(
        "Status:      installed"@,
    ));
}

/// Whether `info` shows the effect chain of this voice: only DSP voices
/// have one.
pub fn shows_effects(m: &VoiceManifest) -> (r: bool)
    ensures
        r == m.spec_is_dsp(),
{
    m.is_dsp()
}

/// What `mimik info <voice>` prints. `manifest` is the voice's manifest
/// (`None`: it could not be loaded); `effect_lines` describe its preset's
/// effects and are shown for DSP voices only.
pub fn run(voice: &str, manifest: Option<&VoiceManifest>, effect_lines: &Vec<String>) -> (r: Vec<
    String,
>)
    ensures
        views(r@) == spec_info(
            voice@,
            match manifest {
                Some(m) => Some(*m),
                None => None,
            },
            views(effect_lines@),
        ),
{
    let mut lines: Vec<String> = Vec::new();
    match manifest {
        None => {
            let mut a = String::from_str("Unknown voice: '");
            a.append(voice);
            a.append("'");
            lines.push(a);
            lines.push(String::from_str("Run 'mimik list' to see installed voices."));
            assert(views(lines@) =~= unknown_voice_lines(voice@));
        },
        Some(m) => {
            let mut a = String::from_str("Name:        ");
            a.append(m.name.as_str());
            lines.push(a);
            let mut b = String::from_str("ID:          ");
            b.append(m.id.as_str());
            lines.push(b);
            let mut c = String::from_str("Engine:      ");
            c.append(m.engine.as_str());
            lines.push(c);
            let mut d = String::from_str("Version:     ");
            d.append(m.version.as_str());
            lines.push(d);
            match &m.description {
                Some(desc) => {
                    let mut e = String::from_str("Description: ");
                    e.append(desc.as_str());
                    lines.push(e);
                },
                None => {},
            }
            assert(views(lines@) =~= manifest_lines(*m));
            let ghost base = views(lines@);
            if m.is_dsp() {
                let mut i: usize = 0;
                while i < effect_lines.len()
                    invariant
                        i <= effect_lines.len(),
                        views(lines@) == base + views(effect_lines@).take(i as int),
                    decreases effect_lines.len() - i,
                {
                    let l = effect_lines[i].clone();
                    assert(l@ == views(effect_lines@)[i as int]);
                    let ghost before = lines@;
                    lines.push(l);
                    assert(views(lines@) =~= views(before).push(l@));
                    assert(views(effect_lines@).take(i + 1) =~= views(effect_lines@).take(
                        i as int,
                    ).push(l@));
                    assert(views(lines@) =~= base + views(effect_lines@).take(i + 1));
                    i = i + 1;
                }
                assert(views(effect_lines@).take(i as int) =~= views(effect_lines@));
            } else {
                assert(base + Seq::<Seq<char>>::empty() =~= base);
            }
            let ghost mid = views(lines@);
            lines.push(String::from_str("Status:      installed"));
            assert(views(lines@) =~= mid + seq!["Status:      installed"@]);
        },
    }
    lines
}

} // verus!
