//! An image that was loaded into VRAM is what a store of the same rectangle
//! reads back.

use vstd::prelude::*;
use crate::gpu_registers::{Gp0Command, VramWindow, VRAM_HEIGHT, VRAM_WIDTH};
use crate::gpu_state::{
    GpuState,
    COMMAND_BUFFER_SIZE,
    MAX_COMMAND_RECORD_SIZE,
    high_pixel,
    image_words,
    low_pixel,
};

verus! {

/// A rectangle of VRAM: its top left corner and its size.
pub struct Rectangle {
    pub x: int,
    pub y: int,
    pub width: int,
    pub height: int,
}

impl Rectangle {
    /// The rectangle that the two parameter words of an image command name:
    /// the corner in the first, the size in the second, X and width in the
    /// low halves.
    pub open spec fn of(corner: u32, size: u32) -> Rectangle {
        Rectangle {
            x: (corner & 0xFFFF) as int,
            y: (corner >> 16) as int,
            width: (size & 0xFFFF) as int,
            height: (size >> 16) as int,
        }
    }

    /// Whether the rectangle is not empty and lies inside VRAM.
    pub open spec fn fits(self) -> bool {
        &&& 0 <= self.x
        &&& 0 <= self.y
        &&& 1 <= self.width
        &&& 1 <= self.height
        &&& self.x + self.width <= VRAM_WIDTH
        &&& self.y + self.height <= VRAM_HEIGHT
    }

    /// The number of pixels in the rectangle.
    pub open spec fn pixels(self) -> int {
        self.width * self.height
    }

    /// The place of a pixel in the order in which a transfer walks the
    /// rectangle: line by line, left to right.
    pub open spec fn rank(self, column: int, row: int) -> int {
        (row - self.y) * self.width + (column - self.x)
    }

    pub open spec fn contains(self, column: int, row: int) -> bool {
        self.x <= column < self.x + self.width && self.y <= row < self.y + self.height
    }
}

/// The pixel with rank `rank` in the data words of an image: two pixels to
/// a word, the first in the low half.
pub open spec fn pixel_of(words: Seq<u32>, rank: int) -> u16 {
    if rank % 2 == 0 {
        low_pixel(words[rank / 2])
    } else {
        high_pixel(words[rank / 2])
    }
}

/// The data word with number `index` as a store reads it back: if the
/// rectangle has an odd number of pixels, the high half of the last word
/// reads as zero.
pub open spec fn read_back(r: Rectangle, words: Seq<u32>, index: int) -> u32 {
    if 2 * index + 1 < r.pixels() {
        words[index]
    } else {
        words[index] & 0xFFFF
    }
}

/// The GPU after `count` reads of the data port, and the words read.
pub open spec fn reads(gpu: GpuState, count: nat) -> (GpuState, Seq<u32>)
    decreases count,
{
    if count == 0 {
        (gpu, Seq::empty())
    } else {
        let (before, words) = reads(gpu, (count - 1) as nat);
        (before.read().0, words.push(before.read().1))
    }
}

/// Whether the walk of `window` over `r` stands on the pixel with rank
/// `done`; with `done` the number of pixels, the walk has left the rectangle.
pub open spec fn walking(window: VramWindow, r: Rectangle, done: int) -> bool {
    &&& window.start_x == r.x
    &&& window.start_y == r.y
    &&& window.end_x == r.x + r.width
    &&& window.end_y == r.y + r.height
    &&& r.x <= window.current_x < r.x + r.width
    &&& r.y <= window.current_y <= r.y + r.height
    &&& (window.current_y == r.y + r.height ==> window.current_x == r.x)
    &&& r.rank(window.current_x as int, window.current_y as int) == done
}

/// Whether the first `done` pixels of `r`, in the order of the walk, hold
/// the pixels of `words`.
pub open spec fn holds(vram: Seq<u16>, r: Rectangle, words: Seq<u32>, done: int) -> bool {
    forall|column: int, row: int|
        r.contains(column, row) && r.rank(column, row) < done ==> #[trigger] cell(
            vram,
            column,
            row,
        ) == pixel_of(words, r.rank(column, row))
}

/// The pixel at column `column` of line `row`.
pub open spec fn cell(vram: Seq<u16>, column: int, row: int) -> u16 {
    vram[row * VRAM_WIDTH as int + column]
}

/// Two pixels of a rectangle with the same rank are the same pixel.
proof fn lemma_rank_unique(r: Rectangle, column: int, row: int, other_column: int, other_row: int)
    requires
        r.fits(),
        r.contains(column, row) || (row == r.y + r.height && column == r.x),
        r.contains(other_column, other_row),
        r.rank(column, row) == r.rank(other_column, other_row),
    ensures
        column == other_column,
        row == other_row,
{
    let w = r.width;
    let a = row - r.y;
    let b = other_row - r.y;
    let i = column - r.x;
    let j = other_column - r.x;
    assert(a == b && i == j) by (nonlinear_arith)
        requires
            a * w + i == b * w + j,
            0 <= i < w,
            0 <= j < w,
            0 <= a,
            0 <= b,
    ;
}

/// The rank of a pixel of the rectangle is below the number of pixels, and
/// the walk has left the rectangle when that number is reached.
proof fn lemma_rank_bounds(r: Rectangle, column: int, row: int)
    requires
        r.fits(),
        r.x <= column < r.x + r.width,
        r.y <= row <= r.y + r.height,
        row == r.y + r.height ==> column == r.x,
    ensures
        0 <= r.rank(column, row) <= r.pixels(),
        r.rank(column, row) == r.pixels() <==> row == r.y + r.height,
        r.rank(r.x, row + 1) == r.rank(r.x + r.width - 1, row) + 1,
{
    let w = r.width;
    let h = r.height;
    let a = row - r.y;
    let i = column - r.x;
    assert(0 <= a * w + i <= w * h && (a * w + i == w * h <==> a == h) && (a + 1) * w == a * w
        + w) by (nonlinear_arith)
        requires
            0 <= i < w,
            0 <= a <= h,
            a == h ==> i == 0,
            1 <= h,
    ;
}

/// One step of the walk: the window moves on to the pixel with the next
/// rank.
proof fn lemma_advance(window: VramWindow, r: Rectangle, done: int)
    requires
        r.fits(),
        walking(window, r, done),
        done < r.pixels(),
    ensures
        !window.spec_exhausted(),
        window.spec_index() == window.current_y * VRAM_WIDTH as int + window.current_x,
        r.contains(window.current_x as int, window.current_y as int),
        walking(window.spec_advance(), r, done + 1),
{
    lemma_rank_bounds(r, window.current_x as int, window.current_y as int);
    if window.current_x + 1 == r.x + r.width {
        lemma_rank_bounds(r, r.x, window.current_y + 1);
    } else {
        lemma_rank_bounds(r, window.current_x + 1, window.current_y as int);
    }
}

/// Writing the pixel with rank `done` extends what the rectangle holds.
proof fn lemma_write_pixel(gpu: GpuState, r: Rectangle, words: Seq<u32>, done: int)
    requires
        r.fits(),
        gpu.vram.len() == VRAM_WIDTH * VRAM_HEIGHT,
        walking(gpu.regs.decoder.window, r, done),
        holds(gpu.vram, r, words, done),
        0 <= done < r.pixels(),
    ensures
        ({
            let after = gpu.write_pixel(pixel_of(words, done));
            &&& after.vram.len() == VRAM_WIDTH * VRAM_HEIGHT
            &&& walking(after.regs.decoder.window, r, done + 1)
            &&& holds(after.vram, r, words, done + 1)
            &&& after.regs.decoder.gp0_mode == gpu.regs.decoder.gp0_mode
            &&& after.regs.decoder.gp0_words_remaining == gpu.regs.decoder.gp0_words_remaining
        }),
{
    let window = gpu.regs.decoder.window;
    let after = gpu.write_pixel(pixel_of(words, done));
    lemma_advance(window, r, done);
    assert forall|column: int, row: int|
        r.contains(column, row) && r.rank(column, row) < done + 1 implies #[trigger] cell(
        after.vram,
        column,
        row,
    ) == pixel_of(words, r.rank(column, row)) by {
        if r.rank(column, row) == done {
            lemma_rank_unique(r, window.current_x as int, window.current_y as int, column, row);
        } else {
            assert(cell(gpu.vram, column, row) == pixel_of(words, r.rank(column, row)));
            assert(row * VRAM_WIDTH as int + column != window.current_y * VRAM_WIDTH as int
                + window.current_x);
        }
    }
}

/// The number of pixels that `count` data words have carried: two to a
/// word, but no more than the rectangle has.
pub open spec fn carried(r: Rectangle, count: int) -> int {
    if 2 * count < r.pixels() {
        2 * count
    } else {
        r.pixels()
    }
}

/// Whether `gpu` is loading the image `words` into `r` and has taken
/// `count` of its data words; with all words taken, the port is back in
/// command mode.
pub open spec fn loading(gpu: GpuState, r: Rectangle, words: Seq<u32>, count: int) -> bool {
    &&& gpu.vram.len() == VRAM_WIDTH * VRAM_HEIGHT
    &&& walking(gpu.regs.decoder.window, r, carried(r, count))
    &&& holds(gpu.vram, r, words, carried(r, count))
    &&& if count < words.len() {
        &&& gpu.regs.decoder.gp0_mode is LoadImage
        &&& gpu.regs.decoder.gp0_words_remaining == words.len() - count
    } else {
        &&& gpu.regs.decoder.gp0_mode is Command
        &&& gpu.regs.decoder.gp0_words_remaining == 0
    }
}

/// Whether `gpu` is storing the image in `r` and has handed out `count`
/// words; with all words handed out, the port is back in command mode.
pub open spec fn storing(gpu: GpuState, r: Rectangle, vram: Seq<u16>, total: int, count: int) -> bool {
    &&& gpu.vram == vram
    &&& walking(gpu.regs.decoder.window, r, carried(r, count))
    &&& if count < total {
        gpu.regs.decoder.gp0_mode is StoreImage
    } else {
        gpu.regs.decoder.gp0_mode is Command
    }
}

/// One data word of an image carries its two pixels into the rectangle.
proof fn lemma_image_word(gpu: GpuState, r: Rectangle, words: Seq<u32>, count: int)
    requires
        r.fits(),
        words.len() == (r.pixels() + 1) / 2,
        0 <= count < words.len(),
        loading(gpu, r, words, count),
    ensures
        loading(gpu.gp0(words[count]), r, words, count + 1),
{
    reveal(GpuState::gp0);
    let word = words[count];
    let low = gpu.write_pixel(low_pixel(word));
    assert(pixel_of(words, 2 * count) == low_pixel(word));
    lemma_write_pixel(gpu, r, words, 2 * count);
    if 2 * count + 1 < r.pixels() {
        assert(pixel_of(words, 2 * count + 1) == high_pixel(word));
        lemma_write_pixel(low, r, words, 2 * count + 1);
    } else {
        let window = low.regs.decoder.window;
        lemma_rank_bounds(r, window.current_x as int, window.current_y as int);
        assert(window.spec_exhausted());
    }
}

/// The data words of an image, taken one after the other, fill the
/// rectangle.
proof fn lemma_image_words(gpu: GpuState, r: Rectangle, words: Seq<u32>, count: int)
    requires
        r.fits(),
        words.len() == (r.pixels() + 1) / 2,
        0 <= count <= words.len(),
        loading(gpu, r, words, 0),
    ensures
        loading(gpu.gp0_all(words.take(count)), r, words, count),
    decreases count,
{
    if count == 0 {
        assert(words.take(0) =~= Seq::<u32>::empty());
    } else {
        lemma_image_words(gpu, r, words, count - 1);
        assert(words.take(count).drop_last() =~= words.take(count - 1));
        assert(words.take(count).last() == words[count - 1]);
        lemma_image_word(gpu.gp0_all(words.take(count - 1)), r, words, count - 1);
    }
}

/// Writing one sequence of words to GP0 and then another is writing the
/// two joined.
pub proof fn lemma_gp0_all_joined(gpu: GpuState, first: Seq<u32>, second: Seq<u32>)
    ensures
        gpu.gp0_all(first + second) == gpu.gp0_all(first).gp0_all(second),
    decreases second.len(),
{
    if second.len() == 0 {
        assert(first + second =~= first);
    } else {
        lemma_gp0_all_joined(gpu, first, second.drop_last());
        assert((first + second).drop_last() =~= first + second.drop_last());
        assert((first + second).last() == second.last());
    }
}

/// Writing three words to GP0 is writing them one after the other.
proof fn lemma_gp0_three(gpu: GpuState, a: u32, b: u32, c: u32)
    ensures
        gpu.gp0_all(seq![a, b, c]) == gpu.gp0(a).gp0(b).gp0(c),
{
    reveal_with_fuel(GpuState::gp0_all, 4);
    let all = seq![a, b, c];
    assert(all.drop_last() =~= seq![a, b]);
    assert(seq![a, b].drop_last() =~= seq![a]);
    assert(seq![a].drop_last() =~= Seq::<u32>::empty());
    assert(gpu.gp0_all(seq![a]) == gpu.gp0(a));
    assert(gpu.gp0_all(seq![a, b]) == gpu.gp0(a).gp0(b));
}

/// Whether `gpu` has taken the words `buffer` of the command `command`,
/// which has three words, and is otherwise as `before`.
spec fn taking(gpu: GpuState, before: GpuState, command: Gp0Command, buffer: Seq<u32>) -> bool {
    &&& gpu.buffer == buffer
    &&& gpu.vram == before.vram
    &&& gpu.vertices == before.vertices
    &&& gpu.history == before.history
    &&& gpu.regs.decoder.gp0_command == command
    &&& gpu.regs.decoder.gp0_words_remaining == 3 - buffer.len()
    &&& gpu.regs.decoder.gp0_mode == before.regs.decoder.gp0_mode
}

/// The first word of an image command starts the command.
proof fn lemma_first_word(gpu: GpuState, word: u32, command: Gp0Command)
    requires
        !(gpu.regs.decoder.gp0_mode is LoadImage),
        gpu.regs.decoder.gp0_words_remaining == 0,
        Gp0Command::spec_decode(word >> 24) == Some(command),
        command.spec_words() == 3,
    ensures
        taking(gpu.gp0(word), gpu, command, seq![word]),
{
    reveal(GpuState::gp0);
    assert(gpu.gp0(word).buffer =~= seq![word]);
}

/// The second word of an image command joins the buffer.
proof fn lemma_second_word(gpu: GpuState, before: GpuState, command: Gp0Command, first: u32, word: u32)
    requires
        !(before.regs.decoder.gp0_mode is LoadImage),
        taking(gpu, before, command, seq![first]),
    ensures
        taking(gpu.gp0(word), before, command, seq![first, word]),
{
    reveal(GpuState::gp0);
    assert(gpu.gp0(word).buffer =~= seq![first, word]);
}

/// The third word of a load-image command runs the command: the port is
/// in image mode, with the walk at the corner of the rectangle.
proof fn lemma_load_runs(gpu: GpuState, before: GpuState, command: u32, corner: u32, size: u32)
    requires
        !(before.regs.decoder.gp0_mode is LoadImage),
        before.history.len() <= MAX_COMMAND_RECORD_SIZE,
        taking(gpu, before, Gp0Command::LoadImage, seq![command, corner]),
        Rectangle::of(corner, size).fits(),
    ensures
        ({
            let r = Rectangle::of(corner, size);
            let after = gpu.gp0(size);
            &&& after.vram == before.vram
            &&& after.vertices == before.vertices
            &&& after.buffer.len() == 3
            &&& after.history.len() <= before.history.len() + 1
            &&& after.history.len() <= MAX_COMMAND_RECORD_SIZE
            &&& after.regs.decoder.gp0_mode is LoadImage
            &&& after.regs.decoder.gp0_words_remaining == (r.pixels() + 1) / 2
            &&& walking(after.regs.decoder.window, r, 0)
        }),
{
    reveal(GpuState::gp0);
    let r = Rectangle::of(corner, size);
    let full = gpu.buffer.push(size);
    assert(full =~= seq![command, corner, size]);
    assert(full[1] == corner && full[2] == size);
    assert(1 <= r.width * r.height <= 0xFFFF * 0xFFFF) by (nonlinear_arith)
        requires
            1 <= r.width <= 0xFFFF,
            1 <= r.height <= 0xFFFF,
    ;
}

/// The third word of a store-image command runs the command: reads of
/// the data port now walk the rectangle from its corner.
proof fn lemma_store_runs(gpu: GpuState, before: GpuState, command: u32, corner: u32, size: u32)
    requires
        !(before.regs.decoder.gp0_mode is LoadImage),
        taking(gpu, before, Gp0Command::StoreImage, seq![command, corner]),
        Rectangle::of(corner, size).fits(),
    ensures
        ({
            let r = Rectangle::of(corner, size);
            let after = gpu.gp0(size);
            &&& after.vram == before.vram
            &&& after.regs.decoder.gp0_mode is StoreImage
            &&& walking(after.regs.decoder.window, r, 0)
        }),
{
    reveal(GpuState::gp0);
    let r = Rectangle::of(corner, size);
    let full = gpu.buffer.push(size);
    assert(full =~= seq![command, corner, size]);
    assert(full[1] == corner && full[2] == size);
    assert(1 <= r.width * r.height) by (nonlinear_arith)
        requires
            1 <= r.width,
            1 <= r.height,
    ;
}

/// A load-image command with its two parameters puts the port in image
/// mode, with the walk at the corner of the rectangle.
proof fn lemma_load_command(gpu: GpuState, command: u32, corner: u32, size: u32, words: Seq<u32>)
    requires
        gpu.wf(),
        !(gpu.regs.decoder.gp0_mode is LoadImage),
        gpu.regs.decoder.gp0_words_remaining == 0,
        command >> 24 == 0xA0,
        Rectangle::of(corner, size).fits(),
        words.len() == (Rectangle::of(corner, size).pixels() + 1) / 2,
    ensures
        loading(gpu.gp0(command).gp0(corner).gp0(size), Rectangle::of(corner, size), words, 0),
        gpu.gp0(command).gp0(corner).gp0(size).vram == gpu.vram,
        gpu.gp0(command).gp0(corner).gp0(size).vertices == gpu.vertices,
        gpu.gp0(command).gp0(corner).gp0(size).history.len() <= MAX_COMMAND_RECORD_SIZE,
        gpu.gp0(command).gp0(corner).gp0(size).buffer.len() <= COMMAND_BUFFER_SIZE,
{
    let one = gpu.gp0(command);
    let two = one.gp0(corner);
    lemma_first_word(gpu, command, Gp0Command::LoadImage);
    lemma_second_word(one, gpu, Gp0Command::LoadImage, command, corner);
    lemma_load_runs(two, gpu, command, corner, size);
    let r = Rectangle::of(corner, size);
    assert(1 <= r.width * r.height) by (nonlinear_arith)
        requires
            1 <= r.width,
            1 <= r.height,
    ;
}

/// A store-image command with its two parameters makes reads of the data
/// port walk the rectangle from its corner.
proof fn lemma_store_command(gpu: GpuState, command: u32, corner: u32, size: u32)
    requires
        !(gpu.regs.decoder.gp0_mode is LoadImage),
        gpu.regs.decoder.gp0_words_remaining == 0,
        command >> 24 == 0xC0,
        Rectangle::of(corner, size).fits(),
    ensures
        storing(
            gpu.gp0(command).gp0(corner).gp0(size),
            Rectangle::of(corner, size),
            gpu.vram,
            (Rectangle::of(corner, size).pixels() + 1) / 2,
            0,
        ),
{
    let one = gpu.gp0(command);
    let two = one.gp0(corner);
    lemma_first_word(gpu, command, Gp0Command::StoreImage);
    lemma_second_word(one, gpu, Gp0Command::StoreImage, command, corner);
    lemma_store_runs(two, gpu, command, corner, size);
    let r = Rectangle::of(corner, size);
    assert(1 <= r.width * r.height) by (nonlinear_arith)
        requires
            1 <= r.width,
            1 <= r.height,
    ;
}

/// The two halves of a word make up the word; the low half alone makes up
/// its low sixteen bits.
proof fn lemma_halves(word: u32)
    by (bit_vector)
    ensures
        ((((word >> 16) as u16) as u32) << 16) | (((word & 0xFFFF) as u16) as u32) == word,
        ((0u16 as u32) << 16) | (((word & 0xFFFF) as u16) as u32) == word & 0xFFFF,
{
}

/// One read of the data port hands out the two pixels that the walk
/// stands on.
proof fn lemma_read_word(gpu: GpuState, r: Rectangle, words: Seq<u32>, count: int)
    requires
        r.fits(),
        words.len() == (r.pixels() + 1) / 2,
        0 <= count < words.len(),
        gpu.vram.len() == VRAM_WIDTH * VRAM_HEIGHT,
        holds(gpu.vram, r, words, r.pixels()),
        storing(gpu, r, gpu.vram, words.len() as int, count),
    ensures
        storing(gpu.read().0, r, gpu.vram, words.len() as int, count + 1),
        gpu.read().1 == read_back(r, words, count),
{
    reveal(GpuState::read);
    let word = words[count];
    lemma_halves(word);
    let window = gpu.regs.decoder.window;
    lemma_advance(window, r, 2 * count);
    assert(cell(gpu.vram, window.current_x as int, window.current_y as int) == pixel_of(
        words,
        2 * count,
    ));
    let (one, low) = gpu.read_pixel();
    assert(low == low_pixel(word));
    let next = one.regs.decoder.window;
    lemma_rank_bounds(r, next.current_x as int, next.current_y as int);
    if 2 * count + 1 < r.pixels() {
        lemma_advance(next, r, 2 * count + 1);
        assert(cell(gpu.vram, next.current_x as int, next.current_y as int) == pixel_of(
            words,
            2 * count + 1,
        ));
        let (two, high) = one.read_pixel();
        assert(high == high_pixel(word));
        let last = two.regs.decoder.window;
        lemma_rank_bounds(r, last.current_x as int, last.current_y as int);
    } else {
        assert(next.spec_exhausted());
    }
}

/// The reads of a store hand out the data words of the image, one after
/// the other.
proof fn lemma_read_words(gpu: GpuState, r: Rectangle, words: Seq<u32>, count: nat)
    requires
        r.fits(),
        words.len() == (r.pixels() + 1) / 2,
        count <= words.len(),
        gpu.vram.len() == VRAM_WIDTH * VRAM_HEIGHT,
        holds(gpu.vram, r, words, r.pixels()),
        storing(gpu, r, gpu.vram, words.len() as int, 0),
    ensures
        storing(reads(gpu, count).0, r, gpu.vram, words.len() as int, count as int),
        reads(gpu, count).1.len() == count,
        forall|k: int| 0 <= k < count ==> reads(gpu, count).1[k] == read_back(r, words, k),
    decreases count,
{
    if count > 0 {
        lemma_read_words(gpu, r, words, (count - 1) as nat);
        lemma_read_word(reads(gpu, (count - 1) as nat).0, r, words, count - 1);
    }
}

/// An image that was loaded is what a store of the same rectangle reads
/// back. `load` and `store` are the command words, `corner` and `size` the
/// two parameters, `words` the data words of the image. The rectangle is
/// taken to lie inside VRAM. After the load each pixel of the rectangle
/// holds its pixel of the image, and the port is back in command mode; the
/// reads of the store then hand out the data words again, and end the store.
pub proof fn lemma_image_round_trip(
    gpu: GpuState,
    load: u32,
    store: u32,
    corner: u32,
    size: u32,
    words: Seq<u32>,
)
    requires
        gpu.wf(),
        !(gpu.regs.decoder.gp0_mode is LoadImage),
        gpu.regs.decoder.gp0_words_remaining == 0,
        load >> 24 == 0xA0,
        store >> 24 == 0xC0,
        Rectangle::of(corner, size).fits(),
        words.len() == image_words(size & 0xFFFF, size >> 16),
    ensures
        ({
            let r = Rectangle::of(corner, size);
            let loaded = gpu.gp0_all(seq![load, corner, size] + words);
            let stored = loaded.gp0_all(seq![store, corner, size]);
            let read = reads(stored, words.len());
            &&& loaded.regs.decoder.gp0_mode is Command
            &&& forall|column: int, row: int|
                r.contains(column, row) ==> #[trigger] loaded.pixel(column, row) == pixel_of(
                    words,
                    r.rank(column, row),
                )
            &&& read.1.len() == words.len()
            &&& forall|k: int| 0 <= k < words.len() ==> read.1[k] == read_back(r, words, k)
            &&& read.0.regs.decoder.gp0_mode is Command
            &&& read.0.vram == loaded.vram
        }),
{
    let r = Rectangle::of(corner, size);
    assert(1 <= r.width * r.height <= 0xFFFF * 0xFFFF) by (nonlinear_arith)
        requires
            1 <= r.width <= 0xFFFF,
            1 <= r.height <= 0xFFFF,
    ;
    assert(words.len() == (r.pixels() + 1) / 2);
    let commanded = gpu.gp0(load).gp0(corner).gp0(size);
    lemma_gp0_three(gpu, load, corner, size);
    lemma_gp0_all_joined(gpu, seq![load, corner, size], words);
    lemma_load_command(gpu, load, corner, size, words);
    lemma_image_words(commanded, r, words, words.len() as int);
    assert(words.take(words.len() as int) =~= words);
    let loaded = gpu.gp0_all(seq![load, corner, size] + words);
    assert(loading(loaded, r, words, words.len() as int));
    assert forall|column: int, row: int| r.contains(column, row) implies #[trigger] loaded.pixel(
        column,
        row,
    ) == pixel_of(words, r.rank(column, row)) by {
        lemma_rank_bounds(r, column, row);
        assert(cell(loaded.vram, column, row) == pixel_of(words, r.rank(column, row)));
    }
    lemma_load_state(gpu, commanded, r, words);
    lemma_gp0_three(loaded, store, corner, size);
    lemma_store_command(loaded, store, corner, size);
    let stored = loaded.gp0_all(seq![store, corner, size]);
    lemma_read_words(stored, r, words, words.len());
}

/// While an image is loading, the GPU stays well-formed.
proof fn lemma_load_state(gpu: GpuState, commanded: GpuState, r: Rectangle, words: Seq<u32>)
    requires
        gpu.wf(),
        r.fits(),
        words.len() == (r.pixels() + 1) / 2,
        loading(commanded, r, words, 0),
        commanded.vertices == gpu.vertices,
        commanded.history.len() <= MAX_COMMAND_RECORD_SIZE,
        commanded.buffer.len() <= COMMAND_BUFFER_SIZE,
    ensures
        commanded.gp0_all(words).wf(),
        commanded.gp0_all(words).regs.decoder.gp0_words_remaining == 0,
{
    lemma_load_keeps(commanded, r, words, words.len() as int);
    lemma_image_words(commanded, r, words, words.len() as int);
    assert(words.take(words.len() as int) =~= words);
}

/// The data words of an image change nothing but VRAM, the walk and the
/// count of words that are still to come.
proof fn lemma_load_keeps(gpu: GpuState, r: Rectangle, words: Seq<u32>, count: int)
    requires
        r.fits(),
        words.len() == (r.pixels() + 1) / 2,
        0 <= count <= words.len(),
        loading(gpu, r, words, 0),
    ensures
        gpu.gp0_all(words.take(count)).vertices == gpu.vertices,
        gpu.gp0_all(words.take(count)).history == gpu.history,
        gpu.gp0_all(words.take(count)).buffer == gpu.buffer,
    decreases count,
{
    reveal(GpuState::gp0);
    if count == 0 {
        assert(words.take(0) =~= Seq::<u32>::empty());
    } else {
        lemma_load_keeps(gpu, r, words, count - 1);
        lemma_image_words(gpu, r, words, count - 1);
        assert(words.take(count).drop_last() =~= words.take(count - 1));
        assert(words.take(count).last() == words[count - 1]);
    }
}

} // verus!
