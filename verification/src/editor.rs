//! The editor state that plugins query and annotate.
//!
//! The state is a list of lines, one list of style spans per line, and the set of
//! plugins that have connected. Its mathematical model is [`EditorModel`]; every
//! operation is specified as a function on that model.

use vstd::prelude::*;

verus! {

/// One style annotation of a line: a range and the attribute to show it with.
/// The range is not interpreted here.
#[derive(Debug, Clone, PartialEq, Eq)]
pub struct StyleSpan {
    pub start: u64,
    pub end: u64,
    pub attr: String,
}

/// What a [`StyleSpan`] stands for.
pub struct SpanModel {
    pub start: u64,
    pub end: u64,
    pub attr: Seq<char>,
}

impl View for StyleSpan {
    type V = SpanModel;

    open spec fn view(&self) -> SpanModel {
        SpanModel { start: self.start, end: self.end, attr: self.attr@ }
    }
}

/// The models of a list of spans, in order.
pub open spec fn spans_view(spans: Seq<StyleSpan>) -> Seq<SpanModel> {
    Seq::new(spans.len(), |i: int| spans[i]@)
}

/// The texts of a list of strings, in order.
pub open spec fn texts_view(texts: Seq<String>) -> Seq<Seq<char>> {
    Seq::new(texts.len(), |i: int| texts[i]@)
}

/// The capability to send to one connected plugin, as the editor keeps it: the
/// number under which the host filed the plugin's outbound channel.
#[derive(Debug, Clone, Copy, PartialEq, Eq, Structural)]
pub struct PluginPeer {
    pub id: u64,
}

/// A line index that names no line of the buffer.
#[derive(Debug, Clone, Copy, PartialEq, Eq, Structural)]
pub struct OutOfRange;

/// The mathematical content of an [`EditorState`].
pub struct EditorModel {
    /// The text of each line.
    pub lines: Seq<Seq<char>>,
    /// The style spans of each line.
    pub styles: Seq<Seq<SpanModel>>,
    /// The ids of the plugins that have connected.
    pub peers: Set<u64>,
}

impl EditorModel {
    /// Every line has its list of spans.
    pub open spec fn wf(self) -> bool {
        self.styles.len() == self.lines.len()
    }

    /// A buffer of the given lines with no style and no plugin.
    pub open spec fn of_lines(lines: Seq<Seq<char>>) -> EditorModel {
        EditorModel {
            lines,
            styles: Seq::new(lines.len(), |i: int| Seq::<SpanModel>::empty()),
            peers: Set::<u64>::empty(),
        }
    }

    /// Whether `index` names a line.
    pub open spec fn has_line(self, index: int) -> bool {
        0 <= index < self.lines.len()
    }

    /// The state after the spans of line `index` are replaced by `spans`; the state
    /// itself where there is no such line.
    pub open spec fn with_styles(self, index: int, spans: Seq<SpanModel>) -> EditorModel {
        if self.has_line(index) {
            EditorModel { styles: self.styles.update(index, spans), ..self }
        } else {
            self
        }
    }

    /// The state after plugin `id` has connected.
    pub open spec fn with_peer(self, id: u64) -> EditorModel {
        EditorModel { peers: self.peers.insert(id), ..self }
    }

    /// The first `count` lines, one after the other.
    pub open spec fn prefix(self, count: nat) -> Seq<char>
        decreases count,
    {
        if count == 0 {
            Seq::<char>::empty()
        } else {
            self.prefix((count - 1) as nat) + self.lines[count - 1]
        }
    }

    /// The whole buffer: all lines, one after the other.
    pub open spec fn content(self) -> Seq<char> {
        self.prefix(self.lines.len())
    }
}

/// The first `count` lines are the beginning of the first `total` lines.
pub proof fn lemma_prefix_grows(model: EditorModel, count: nat, total: nat)
    requires
        count <= total <= model.lines.len(),
    ensures
        model.prefix(count).len() <= model.prefix(total).len(),
        model.prefix(total).subrange(0, model.prefix(count).len() as int) == model.prefix(count),
    decreases total - count,
{
    if count == total {
        assert(model.prefix(total).subrange(0, model.prefix(total).len() as int) =~= model.prefix(
            total,
        ));
    } else {
        let before = (total - 1) as nat;
        lemma_prefix_grows(model, count, before);
        assert(model.prefix(total) == model.prefix(before) + model.lines[before as int]);
        assert(model.prefix(total).subrange(0, model.prefix(count).len() as int)
            =~= model.prefix(before).subrange(0, model.prefix(count).len() as int));
    }
}

/// The lines tile the buffer without gap or overlap: the first line starts at the
/// start of the content, line `index` is the piece of the content that starts where
/// the lines before it end, the next line starts where it ends, and the content ends
/// with the last line.
pub proof fn lemma_lines_tile_content(model: EditorModel, index: int)
    requires
        model.has_line(index),
    ensures
        model.prefix(0).len() == 0,
        model.prefix(model.lines.len()) == model.content(),
        model.prefix((index + 1) as nat).len() == model.prefix(index as nat).len()
            + model.lines[index].len(),
        model.prefix((index + 1) as nat).len() <= model.content().len(),
        model.content().subrange(
            model.prefix(index as nat).len() as int,
            model.prefix((index + 1) as nat).len() as int,
        ) == model.lines[index],
{
    let from = model.prefix(index as nat);
    let upto = model.prefix((index + 1) as nat);
    assert(upto == from + model.lines[index]);
    lemma_prefix_grows(model, (index + 1) as nat, model.lines.len());
    assert(model.content().subrange(from.len() as int, upto.len() as int) =~= model.lines[index])
        by {
        assert(model.content().subrange(0, upto.len() as int) == upto);
        assert forall|k: int| 0 <= k < model.lines[index].len() implies model.content()[from.len()
            + k] == model.lines[index][k] by {
            assert(model.content().subrange(0, upto.len() as int)[from.len() + k]
                == model.content()[from.len() + k]);
            assert(upto[from.len() + k] == model.lines[index][k]);
        }
    }
}

/// Connecting a plugin that is already connected changes nothing, and connecting
/// never touches the text or the styles.
pub proof fn lemma_connect_is_idempotent(model: EditorModel, id: u64)
    ensures
        model.with_peer(id).with_peer(id) == model.with_peer(id),
        model.with_peer(id).peers.contains(id),
        model.with_peer(id).lines == model.lines,
        model.with_peer(id).styles == model.styles,
        model.peers.contains(id) ==> model.with_peer(id) == model,
{
    assert(model.peers.insert(id).insert(id) =~= model.peers.insert(id));
    if model.peers.contains(id) {
        assert(model.peers.insert(id) =~= model.peers);
    }
}

/// One line of the buffer with its annotations.
struct Line {
    text: String,
    styles: Vec<StyleSpan>,
}

/// The editor state shared between the host and its plugins.
pub struct EditorState {
    lines: Vec<Line>,
    peers: Vec<PluginPeer>,
}

impl View for EditorState {
    type V = EditorModel;

    closed spec fn view(&self) -> EditorModel {
        EditorModel {
            lines: Seq::new(self.lines@.len(), |i: int| self.lines@[i].text@),
            styles: Seq::new(self.lines@.len(), |i: int| spans_view(self.lines@[i].styles@)),
            peers: Set::new(
                |id: u64| exists|i: int| 0 <= i < self.peers@.len() && self.peers@[i].id == id,
            ),
        }
    }
}

impl EditorState {
    /// Every editor state is well formed: each of its lines has its list of spans.
    pub proof fn lemma_well_formed(&self)
        ensures
            self@.wf(),
    {
    }

    /// A buffer of the given lines, with no style and no plugin connected.
    pub fn new(lines: Vec<String>) -> (state: EditorState)
        ensures
            state@ == EditorModel::of_lines(texts_view(lines@)),
    {
        let ghost given = lines@;
        let mut rows: Vec<Line> = Vec::new();
        for text in it: lines
            invariant
                it.seq() == given,
                rows@.len() == it.index(),
                forall|k: int|
                    0 <= k < rows@.len() ==> (#[trigger] rows@[k]).text == given[k]
                        && rows@[k].styles@.len() == 0,
        {
            rows.push(Line { text, styles: Vec::new() });
        }
        let state = EditorState { lines: rows, peers: Vec::new() };
        proof {
            let model = EditorModel::of_lines(texts_view(given));
            assert(state@.lines =~= model.lines);
            assert(state@.styles =~= model.styles) by {
                assert forall|k: int| 0 <= k < given.len() implies #[trigger] state@.styles[k]
                    == model.styles[k] by {
                    assert(spans_view(state.lines@[k].styles@) =~= Seq::<SpanModel>::empty());
                }
            }
            assert(state@.peers =~= model.peers);
        }
        state
    }

    /// The number of lines.
    pub fn line_count(&self) -> (count: usize)
        ensures
            count == self@.lines.len(),
    {
        self.lines.len()
    }

    /// The text of line `index`.
    pub fn get_line(&self, index: usize) -> (line: Result<String, OutOfRange>)
        ensures
            match line {
                Ok(text) => self@.has_line(index as int) && text@ == self@.lines[index as int],
                Err(_) => !self@.has_line(index as int),
            },
    {
        if index < self.lines.len() {
            Ok(self.lines[index].text.clone())
        } else {
            Err(OutOfRange)
        }
    }

    /// The style spans of line `index`.
    pub fn line_styles(&self, index: usize) -> (styles: Result<&Vec<StyleSpan>, OutOfRange>)
        ensures
            match styles {
                Ok(spans) => self@.has_line(index as int) && spans_view(spans@)
                    == self@.styles[index as int],
                Err(_) => !self@.has_line(index as int),
            },
    {
        if index < self.lines.len() {
            Ok(&self.lines[index].styles)
        } else {
            Err(OutOfRange)
        }
    }

    /// Replaces the style spans of line `index` by `spans`. Where there is no such
    /// line the state stays as it is.
    pub fn set_line_styles(&mut self, index: usize, spans: Vec<StyleSpan>) -> (done: Result<
        (),
        OutOfRange,
    >)
        ensures
            done is Ok <==> old(self)@.has_line(index as int),
            final(self)@ == old(self)@.with_styles(index as int, spans_view(spans@)),
    {
        if index < self.lines.len() {
            self.lines[index].styles = spans;
            proof {
                assert(self@.lines =~= old(self)@.lines);
                assert(self@.styles =~= old(self)@.styles.update(
                    index as int,
                    spans_view(spans@),
                ));
            }
            Ok(())
        } else {
            Err(OutOfRange)
        }
    }

    /// Records that the plugin behind `peer` has connected. Recording the same peer
    /// again changes nothing.
    pub fn on_plugin_connect(&mut self, peer: PluginPeer)
        ensures
            final(self)@ == old(self)@.with_peer(peer.id),
    {
        if !self.is_connected(peer.id) {
            self.peers.push(peer);
        }
        proof {
            assert(self@.lines =~= old(self)@.lines);
            assert(self@.styles =~= old(self)@.styles);
            assert(self@.peers =~= old(self)@.peers.insert(peer.id)) by {
                assert forall|id: u64| self@.peers.contains(id) <==> old(self)@.peers.insert(
                    peer.id,
                ).contains(id) by {
                    if old(self)@.peers.contains(id) {
                        let i = choose|i: int|
                            0 <= i < old(self).peers@.len() && old(self).peers@[i].id == id;
                        assert(self.peers@[i].id == id);
                    }
                    if id == peer.id && !old(self)@.peers.contains(id) {
                        let last = self.peers@.len() - 1;
                        assert(self.peers@[last].id == id);
                    }
                }
            }
        }
    }

    /// Whether the plugin filed under `id` has connected.
    pub fn is_connected(&self, id: u64) -> (connected: bool)
        ensures
            connected == self@.peers.contains(id),
    {
        let n: usize = self.peers.len();
        let mut i: usize = 0;
        while i < n
            invariant
                i <= n,
                n == self.peers@.len(),
                forall|k: int| 0 <= k < i ==> self.peers@[k].id != id,
            decreases n - i,
        {
            if self.peers[i].id == id {
                return true;
            }
            i += 1;
        }
        false
    }

    /// The whole buffer: all lines, one after the other.
    pub fn content(&self) -> (text: String)
        ensures
            text@ == self@.content(),
    {
        let mut text = String::new();
        let n: usize = self.lines.len();
        let mut i: usize = 0;
        while i < n
            invariant
                i <= n,
                n == self.lines@.len(),
                text@ == self@.prefix(i as nat),
            decreases n - i,
        {
            text.append(self.lines[i].text.as_str());
            i += 1;
        }
        text
    }
}

} // verus!
