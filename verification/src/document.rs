//! Block-structured changelog documents and the viewport layout math.
//!
//! A generated changelog arrives as raw markdown text. It is split into
//! blocks at blank-line boundaries; each block is measured by the external
//! markdown renderer and laid out at a cumulative vertical offset. The
//! viewport math decides which blocks intersect the visible rows for a given
//! scroll offset.

use vstd::prelude::*;

verus! {

/// The views of a vector of byte vectors.
pub open spec fn views_of(vs: Seq<Vec<u8>>) -> Seq<Seq<u8>> {
    vs.map_values(|v: Vec<u8>| v@)
}

/// The lines of a byte sequence, split at every newline byte. A text with no
/// newline is one line; every newline ends the current line and starts a new
/// (possibly empty) one, so the result always holds at least one line.
pub open spec fn spec_lines(s: Seq<u8>) -> Seq<Seq<u8>>
    decreases s.len(),
{
    if s.len() == 0 {
        seq![Seq::<u8>::empty()]
    } else {
        let prev = spec_lines(s.drop_last());
        if s.last() == 10 {
            prev.push(Seq::<u8>::empty())
        } else {
            prev.update(prev.len() - 1, prev.last().push(s.last()))
        }
    }
}

/// Groups lines into blocks: a block is a maximal run of non-empty lines,
/// joined back together with newlines; empty lines only separate blocks.
/// `cur` carries the partially assembled block, if one is open.
pub open spec fn spec_group(ls: Seq<Seq<u8>>, cur: Option<Seq<u8>>) -> Seq<Seq<u8>>
    decreases ls.len(),
{
    if ls.len() == 0 {
        match cur {
            Option::None => Seq::<Seq<u8>>::empty(),
            Option::Some(b) => seq![b],
        }
    } else {
        let l = ls.first();
        let rest = ls.drop_first();
        if l.len() == 0 {
            match cur {
                Option::None => spec_group(rest, Option::None),
                Option::Some(b) => seq![b] + spec_group(rest, Option::None),
            }
        } else {
            match cur {
                Option::None => spec_group(rest, Option::Some(l)),
                Option::Some(b) => spec_group(rest, Option::Some(b + seq![10u8] + l)),
            }
        }
    }
}

/// The block texts of a raw document: its lines, grouped at blank lines.
pub open spec fn spec_block_texts(raw: Seq<u8>) -> Seq<Seq<u8>> {
    spec_group(spec_lines(raw), Option::None)
}

/// Splits raw bytes into lines at every newline byte.
fn split_lines(raw: &Vec<u8>) -> (res: Vec<Vec<u8>>)
    ensures
        views_of(res@) == spec_lines(raw@),
{
    let mut lines: Vec<Vec<u8>> = Vec::new();
    lines.push(Vec::new());
    let mut i: usize = 0;
    while i < raw.len()
        invariant
            i <= raw.len(),
            lines@.len() >= 1,
            views_of(lines@) == spec_lines(raw@.take(i as int)),
        decreases raw.len() - i,
    {
        let b = raw[i];
        let ghost prev_lines = lines@;
        if b == 10 {
            lines.push(Vec::new());
            proof {
                assert(views_of(lines@) =~= views_of(prev_lines).push(Seq::<u8>::empty()));
            }
        } else {
            let mut lastv = lines.pop().unwrap();
            lastv.push(b);
            lines.push(lastv);
            proof {
                assert(views_of(lines@) =~= views_of(prev_lines).update(
                    prev_lines.len() - 1,
                    prev_lines.last()@.push(b),
                ));
            }
        }
        proof {
            assert(raw@.take(i + 1).drop_last() =~= raw@.take(i as int));
            assert(raw@.take(i + 1).last() == raw@[i as int]);
        }
        i = i + 1;
    }
    proof {
        assert(raw@.take(raw@.len() as int) =~= raw@);
    }
    lines
}

/// The view of the open block carried by the grouping loop: the bytes
/// assembled so far when one is open, nothing otherwise.
spec fn open_block_view(cur: Seq<u8>, has_cur: bool) -> Option<Seq<u8>> {
    if has_cur {
        Option::Some(cur)
    } else {
        Option::None
    }
}

/// Groups the given lines into blank-line-separated blocks.
fn group_blocks(lines: &Vec<Vec<u8>>) -> (res: Vec<Vec<u8>>)
    ensures
        views_of(res@) == spec_group(views_of(lines@), Option::None),
{
    let mut done: Vec<Vec<u8>> = Vec::new();
    let mut cur: Vec<u8> = Vec::new();
    let mut has_cur: bool = false;
    let mut j: usize = 0;
    proof {
        assert(views_of(lines@).skip(0) =~= views_of(lines@));
        assert(views_of(done@) + spec_group(views_of(lines@), Option::None) =~= spec_group(
            views_of(lines@),
            Option::None,
        ));
    }
    while j < lines.len()
        invariant
            j <= lines.len(),
            !has_cur ==> cur@.len() == 0,
            spec_group(views_of(lines@), Option::None) == views_of(done@) + spec_group(
                views_of(lines@).skip(j as int),
                open_block_view(cur@, has_cur),
            ),
        decreases lines.len() - j,
    {
        let ghost pending = views_of(lines@).skip(j as int);
        proof {
            assert(pending.first() == lines@[j as int]@);
            assert(pending.drop_first() =~= views_of(lines@).skip(j + 1));
        }
        let ghost done0 = done@;
        let ghost cur0 = cur@;
        if lines[j].len() == 0 {
            if has_cur {
                done.push(cur);
                cur = Vec::new();
                has_cur = false;
                proof {
                    assert(views_of(done@) =~= views_of(done0).push(cur0));
                    assert(views_of(done0) + (seq![cur0] + spec_group(
                        views_of(lines@).skip(j + 1),
                        Option::None,
                    )) =~= views_of(done@) + spec_group(
                        views_of(lines@).skip(j + 1),
                        Option::None,
                    ));
                }
            }
        } else {
            if has_cur {
                cur.push(10);
                let mut tail = vstd::slice::slice_to_vec(lines[j].as_slice());
                cur.append(&mut tail);
                proof {
                    assert(cur@ =~= cur0 + seq![10u8] + lines@[j as int]@);
                }
            } else {
                cur = vstd::slice::slice_to_vec(lines[j].as_slice());
                has_cur = true;
            }
        }
        j = j + 1;
    }
    proof {
        assert(views_of(lines@).skip(lines@.len() as int) =~= Seq::<Seq<u8>>::empty());
    }
    if has_cur {
        let ghost done0 = done@;
        done.push(cur);
        proof {
            assert(views_of(done@) =~= views_of(done0).push(cur@));
            assert(views_of(done0) + seq![cur@] =~= views_of(done@));
        }
    } else {
        proof {
            assert(views_of(done@) + Seq::<Seq<u8>>::empty() =~= views_of(done@));
        }
    }
    done
}

/// Splits a raw document into its block texts: maximal runs of non-empty
/// lines, joined with newlines.
pub fn split_blocks(raw: &Vec<u8>) -> (res: Vec<Vec<u8>>)
    ensures
        views_of(res@) == spec_block_texts(raw@),
{
    let lines = split_lines(raw);
    group_blocks(&lines)
}

/// The height, in terminal rows, of a markdown fragment once the external
/// markdown renderer has styled it. The renderer is a pure function of its
/// input, so the height depends on the bytes alone.
pub uninterp spec fn rendered_height_of(s: Seq<u8>) -> nat;

/// Relies on `tui_markdown::from_str`, which renders markdown text into
/// styled terminal lines as a pure function of its input, and on
/// `ratatui_core::text::Text::height`, which reads the number of those lines.
#[verifier::external_body]
fn rendered_height(text: &[u8]) -> (h: usize)
    ensures
        h as nat == rendered_height_of(text@),
{
    tui_markdown::from_str(&String::from_utf8_lossy(text)).height()
}

/// The total rendered height of a sequence of block texts.
pub open spec fn spec_total_height(texts: Seq<Seq<u8>>) -> nat
    decreases texts.len(),
{
    if texts.len() == 0 {
        0
    } else {
        rendered_height_of(texts.first()) + spec_total_height(texts.drop_first())
    }
}

/// One laid-out block of a document: its raw markdown text, its rendered
/// height in rows, and the row at which it starts within the document.
pub struct DocBlock {
    pub content: Vec<u8>,
    pub height: usize,
    pub offset: usize,
}

/// The parsed, block-structured result of one successful generation: the raw
/// text it came from and its blocks, stacked with no gaps.
pub struct ViewDocument {
    pub raw: Vec<u8>,
    pub blocks: Vec<DocBlock>,
    pub total_height: usize,
}

/// The block texts of a laid-out document.
pub open spec fn contents_of(bs: Seq<DocBlock>) -> Seq<Seq<u8>> {
    bs.map_values(|b: DocBlock| b.content@)
}

impl ViewDocument {
    /// Blocks are stacked with no gaps: the first starts at row zero, each
    /// next one right below its predecessor, and the total height is where
    /// the last one ends.
    pub open spec fn wf(self) -> bool {
        &&& self.blocks@.len() > 0 ==> self.blocks@[0].offset == 0
        &&& forall|i: int|
            1 <= i < self.blocks@.len() ==> (#[trigger] self.blocks@[i]).offset
                == self.blocks@[i - 1].offset + self.blocks@[i - 1].height
        &&& self.total_height == if self.blocks@.len() == 0 {
            0int
        } else {
            self.blocks@.last().offset + self.blocks@.last().height
        }
    }

    /// An empty document: no blocks, no rows.
    pub fn empty() -> (d: ViewDocument)
        ensures
            d.wf(),
            d.raw@.len() == 0,
            d.blocks@.len() == 0,
            d.total_height == 0,
    {
        ViewDocument { raw: Vec::new(), blocks: Vec::new(), total_height: 0 }
    }
}

/// Parses raw changelog text into a laid-out document: the text is split
/// into blocks at blank lines, each block is measured by the markdown
/// renderer, and the blocks are stacked with no gaps. Returns nothing only
/// when the total rendered height does not fit a `usize`.
pub fn build_document(raw: Vec<u8>) -> (res: Option<ViewDocument>)
    ensures
        res is Some <==> spec_total_height(spec_block_texts(raw@)) <= usize::MAX,
        res matches Some(d) ==> {
            &&& d.wf()
            &&& d.raw@ == raw@
            &&& contents_of(d.blocks@) == spec_block_texts(raw@)
            &&& forall|i: int|
                0 <= i < d.blocks@.len() ==> (#[trigger] d.blocks@[i]).height as nat
                    == rendered_height_of(d.blocks@[i].content@)
            &&& d.total_height as nat == spec_total_height(spec_block_texts(raw@))
        },
{
    let texts = split_blocks(&raw);
    let ghost all = views_of(texts@);
    let mut blocks: Vec<DocBlock> = Vec::new();
    let mut cur_offset: usize = 0;
    let mut j: usize = 0;
    proof {
        assert(all.skip(0) =~= all);
    }
    while j < texts.len()
        invariant
            j <= texts.len(),
            all == views_of(texts@),
            all == spec_block_texts(raw@),
            blocks@.len() == j,
            cur_offset as nat + spec_total_height(all.skip(j as int)) == spec_total_height(all),
            contents_of(blocks@) =~= all.take(j as int),
            forall|i: int|
                0 <= i < blocks@.len() ==> (#[trigger] blocks@[i]).height as nat
                    == rendered_height_of(blocks@[i].content@),
            blocks@.len() > 0 ==> blocks@[0].offset == 0,
            forall|i: int|
                1 <= i < blocks@.len() ==> (#[trigger] blocks@[i]).offset == blocks@[i - 1].offset
                    + blocks@[i - 1].height,
            cur_offset == if blocks@.len() == 0 {
                0int
            } else {
                blocks@.last().offset + blocks@.last().height
            },
        decreases texts.len() - j,
    {
        let ghost pending = all.skip(j as int);
        proof {
            assert(pending.first() == texts@[j as int]@);
            assert(pending.drop_first() =~= all.skip(j + 1));
        }
        let h = rendered_height(texts[j].as_slice());
        if usize::MAX - cur_offset < h {
            proof {
                assert(spec_total_height(pending) == rendered_height_of(pending.first())
                    + spec_total_height(pending.drop_first()));
                assert(h as nat == rendered_height_of(pending.first()));
                assert(cur_offset as nat + spec_total_height(pending) == spec_total_height(all));
                assert(spec_total_height(all) >= cur_offset as nat + h as nat);
                assert(cur_offset + h > usize::MAX);
                assert(all == spec_block_texts(raw@));
                assert(spec_total_height(spec_block_texts(raw@)) > usize::MAX);
            }
            return Option::None;
        }
        let content = vstd::slice::slice_to_vec(texts[j].as_slice());
        let ghost blocks0 = blocks@;
        blocks.push(DocBlock { content, height: h, offset: cur_offset });
        cur_offset = cur_offset + h;
        proof {
            assert(contents_of(blocks@) =~= contents_of(blocks0).push(texts@[j as int]@));
            assert(contents_of(blocks@) =~= all.take(j + 1));
        }
        j = j + 1;
    }
    proof {
        assert(all.skip(texts@.len() as int) =~= Seq::<Seq<u8>>::empty());
        assert(all.take(texts@.len() as int) =~= all);
    }
    Option::Some(ViewDocument { raw, blocks, total_height: cur_offset })
}

/// A block starting at row `offset` with the given height is visible in a
/// viewport of height `vh` scrolled to row `scroll` iff its top, relative to
/// the viewport (`offset - scroll`), is above the viewport's bottom edge and
/// its bottom is below the viewport's top edge.
pub open spec fn spec_visible(offset: nat, height: nat, scroll: nat, vh: nat) -> bool {
    offset + height > scroll && offset < scroll + vh
}

/// Whether a document row lies in the span of `len` rows starting at `start`.
pub open spec fn row_within(row: int, start: nat, len: nat) -> bool {
    start <= row < start + len
}

/// A block is visible exactly when it covers at least one of the rows
/// `[scroll, scroll + vh)` that the viewport shows.
pub proof fn lemma_visible_iff_overlap(offset: nat, height: nat, scroll: nat, vh: nat)
    requires
        height > 0,
        vh > 0,
    ensures
        spec_visible(offset, height, scroll, vh) <==> exists|row: int|
            #[trigger] row_within(row, scroll, vh) && row_within(row, offset, height),
{
    if spec_visible(offset, height, scroll, vh) {
        let row = if offset >= scroll {
            offset as int
        } else {
            scroll as int
        };
        assert(row_within(row, scroll, vh) && row_within(row, offset, height));
    }
}

/// The greatest scroll offset that still fills the viewport: no scrolling at
/// all when the whole document fits.
pub open spec fn spec_max_scroll(total: nat, vh: nat) -> nat {
    if total > vh {
        (total - vh) as nat
    } else {
        0
    }
}

/// The greatest valid scroll offset for a document of height `total` in a
/// viewport of height `vh`.
pub fn max_scroll(total: usize, vh: u16) -> (m: usize)
    ensures
        m as nat == spec_max_scroll(total as nat, vh as nat),
{
    if total > vh as usize {
        total - vh as usize
    } else {
        0
    }
}

/// The denominator of the scrollbar indicator ratio: the scroll range, never
/// less than one so that the ratio is well defined.
pub fn scroll_denominator(total: usize, vh: u16) -> (d: usize)
    ensures
        d as nat == if spec_max_scroll(total as nat, vh as nat) > 0 {
            spec_max_scroll(total as nat, vh as nat)
        } else {
            1nat
        },
{
    let m = max_scroll(total, vh);
    if m > 0 {
        m
    } else {
        1
    }
}

impl ViewDocument {
    /// Whether block `i` intersects the viewport rows `[scroll, scroll + vh)`.
    pub fn is_visible(&self, i: usize, scroll: usize, vh: u16) -> (b: bool)
        requires
            i < self.blocks@.len(),
        ensures
            b == spec_visible(
                self.blocks@[i as int].offset as nat,
                self.blocks@[i as int].height as nat,
                scroll as nat,
                vh as nat,
            ),
    {
        let offset = self.blocks[i].offset;
        let height = self.blocks[i].height;
        let above_bottom = if offset >= scroll {
            offset - scroll < vh as usize
        } else {
            true
        };
        let below_top = if scroll >= offset {
            scroll - offset < height
        } else {
            true
        };
        above_bottom && below_top
    }

    /// The indices of the blocks that intersect the viewport rows
    /// `[scroll, scroll + vh)`, in increasing order.
    pub fn visible_blocks(&self, scroll: usize, vh: u16) -> (res: Vec<usize>)
        ensures
            forall|k: int|
                0 <= k < res@.len() ==> (#[trigger] res@[k]) < self.blocks@.len()
                    && spec_visible(
                    self.blocks@[res@[k] as int].offset as nat,
                    self.blocks@[res@[k] as int].height as nat,
                    scroll as nat,
                    vh as nat,
                ),
            forall|i: int|
                0 <= i < self.blocks@.len() && spec_visible(
                    self.blocks@[i].offset as nat,
                    self.blocks@[i].height as nat,
                    scroll as nat,
                    vh as nat,
                ) ==> res@.contains(i as usize),
            forall|k: int| 0 <= k && k + 1 < res@.len() ==> res@[k] < #[trigger] res@[k + 1],
    {
        let mut res: Vec<usize> = Vec::new();
        let mut i: usize = 0;
        while i < self.blocks.len()
            invariant
                i <= self.blocks@.len(),
                forall|k: int|
                    0 <= k < res@.len() ==> (#[trigger] res@[k]) < i && spec_visible(
                        self.blocks@[res@[k] as int].offset as nat,
                        self.blocks@[res@[k] as int].height as nat,
                        scroll as nat,
                        vh as nat,
                    ),
                forall|j: int|
                    0 <= j < i && spec_visible(
                        self.blocks@[j].offset as nat,
                        self.blocks@[j].height as nat,
                        scroll as nat,
                        vh as nat,
                    ) ==> res@.contains(j as usize),
                forall|k: int| 0 <= k && k + 1 < res@.len() ==> res@[k] < #[trigger] res@[k + 1],
            decreases self.blocks@.len() - i,
        {
            if self.is_visible(i, scroll, vh) {
                let ghost res0 = res@;
                res.push(i);
                proof {
                    assert forall|j: int| 0 <= j < res0.len() implies res@.contains(
                        #[trigger] res0[j],
                    ) by {
                        assert(res@[j] == res0[j]);
                    }
                    assert(res@[res0.len() as int] == i);
                    assert(res@.contains(i));
                }
            }
            i = i + 1;
        }
        res
    }

    /// How many rows of block `i` lie above the viewport top and are
    /// scrolled past, so that only the remaining content is drawn.
    pub fn block_skip(&self, i: usize, scroll: usize) -> (skip: usize)
        requires
            i < self.blocks@.len(),
        ensures
            skip as int == if scroll > self.blocks@[i as int].offset {
                scroll - self.blocks@[i as int].offset
            } else {
                0int
            },
    {
        let offset = self.blocks[i].offset;
        if scroll > offset {
            scroll - offset
        } else {
            0
        }
    }
}

} // verus!
