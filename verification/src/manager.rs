use vstd::prelude::*;

verus! {

/// Where the cursor goes on `next`: one step forward, back to the start
/// after the last song (and to the start when the playlist is empty).
pub open spec fn next_cursor(cursor: int, len: int) -> int {
    if cursor + 1 >= len {
        0
    } else {
        cursor + 1
    }
}

/// Where the cursor goes on `previous`: one step back, round to the last
/// song from the first one (and to the start when there is at most one song).
pub open spec fn previous_cursor(cursor: int, len: int) -> int {
    if cursor - 1 < 0 {
        if len <= 1 {
            0
        } else {
            len - 1
        }
    } else {
        cursor - 1
    }
}

/// A cursor is valid for a playlist of `len` songs when it points at a song,
/// or is at the start of an empty playlist; the playlist is indexed by `i32`.
pub open spec fn valid_cursor(cursor: int, len: int) -> bool {
    &&& 0 <= cursor
    &&& (cursor < len || cursor == 0)
    &&& len <= i32::MAX
}

/// Why a path could not be handed out.
#[derive(Debug, PartialEq, Eq)]
pub enum ManagerError {
    /// The cursor points at no song: the playlist is empty.
    MusicNotFound,
}

impl ManagerError {
    /// The message that is shown for this error.
    pub fn message(&self) -> (msg: &'static str)
        ensures
            msg@ == "无法找到Music"@,
    {
        "无法找到Music"
    }
}

/// A playlist of song paths with a cursor on the current song.
pub struct MusicManager {
    musics: Vec<String>,
    index: i32,
}

impl MusicManager {
    /// The songs, in playlist order.
    pub closed spec fn playlist(&self) -> Seq<String> {
        self.musics@
    }

    /// The position of the current song.
    pub closed spec fn cursor(&self) -> int {
        self.index as int
    }

    /// The cursor points into the playlist and the playlist fits the cursor's type.
    pub open spec fn wf(&self) -> bool {
        valid_cursor(self.cursor(), self.playlist().len() as int)
    }

    /// The number of songs.
    pub fn len(&self) -> (n: usize)
        ensures
            n == self.playlist().len(),
    {
        self.musics.len()
    }

    /// An empty playlist with the cursor at the start.
    pub fn new() -> (m: Self)
        ensures
            m.wf(),
            m.playlist() == Seq::<String>::empty(),
            m.cursor() == 0,
    {
        Self { musics: vec![], index: 0 }
    }

    /// Adds a song at the end of the playlist; the cursor stays where it is.
    pub fn append(&mut self, path: String)
        requires
            old(self).wf(),
            old(self).playlist().len() < i32::MAX,
        ensures
            final(self).wf(),
            final(self).playlist() == old(self).playlist().push(path),
            final(self).cursor() == old(self).cursor(),
    {
        self.musics.push(path);
    }

    /// Moves to the next song, then puts `path` at that position, so that
    /// the new song is the current one and the song that was there follows it.
    pub fn append_and_next(&mut self, path: String)
        requires
            old(self).wf(),
            old(self).playlist().len() < i32::MAX,
        ensures
            final(self).wf(),
            final(self).cursor() == next_cursor(
                old(self).cursor(),
                old(self).playlist().len() as int,
            ),
            final(self).playlist() == old(self).playlist().insert(final(self).cursor(), path),
            final(self).playlist()[final(self).cursor()] == path,
    {
        self.next();
        self.musics.insert(self.index as usize, path);
    }

    /// The path of the current song, or `MusicNotFound` when the playlist is empty.
    pub fn get_path(&self) -> (res: Result<String, ManagerError>)
        requires
            self.wf(),
        ensures
            res is Ok <==> self.playlist().len() > 0,
            res is Ok <==> self.cursor() < self.playlist().len(),
            res matches Ok(p) ==> p == self.playlist()[self.cursor()],
            res matches Err(e) ==> e == ManagerError::MusicNotFound,
    {
        let i: usize = self.index as usize;
        if i < self.musics.len() {
            Ok(self.musics[i].clone())
        } else {
            Err(ManagerError::MusicNotFound)
        }
    }

    /// Moves the cursor to the next song, wrapping round to the first.
    pub fn next(&mut self)
        requires
            old(self).wf(),
        ensures
            final(self).wf(),
            final(self).playlist() == old(self).playlist(),
            final(self).cursor() == next_cursor(
                old(self).cursor(),
                old(self).playlist().len() as int,
            ),
    {
        if self.index + 1 >= self.musics.len() as i32 {
            self.index = 0
        } else {
            self.index += 1;
        }
    }

    /// Moves the cursor to the previous song, wrapping round to the last.
    pub fn previous(&mut self)
        requires
            old(self).wf(),
        ensures
            final(self).wf(),
            final(self).playlist() == old(self).playlist(),
            final(self).cursor() == previous_cursor(
                old(self).cursor(),
                old(self).playlist().len() as int,
            ),
    {
        if self.index - 1 < 0 {
            let len: usize = self.musics.len();
            self.index = if len <= 1 {
                0
            } else {
                len as i32 - 1
            };
        } else {
            self.index -= 1
        }
    }
}

/// Going forward one song and back one song (or back, then forward) leaves
/// the cursor where it was, on every playlist.
pub proof fn law_next_previous_inverse(cursor: int, len: int)
    requires
        valid_cursor(cursor, len),
    ensures
        previous_cursor(next_cursor(cursor, len), len) == cursor,
        next_cursor(previous_cursor(cursor, len), len) == cursor,
{
}

/// Both moves keep the cursor valid.
pub proof fn law_moves_keep_cursor_valid(cursor: int, len: int)
    requires
        valid_cursor(cursor, len),
    ensures
        valid_cursor(next_cursor(cursor, len), len),
        valid_cursor(previous_cursor(cursor, len), len),
{
}

/// Adding a song keeps the cursor valid, and the place where `append_and_next`
/// inserts (the cursor after one step forward) lies within the playlist, so
/// the insert never fails.
pub proof fn law_adding_keeps_cursor_valid(cursor: int, len: int)
    requires
        valid_cursor(cursor, len),
        0 <= len < i32::MAX,
    ensures
        valid_cursor(cursor, len + 1),
        0 <= next_cursor(cursor, len) <= len,
        valid_cursor(next_cursor(cursor, len), len + 1),
{
}

/// With a valid cursor, there is a current song exactly when the playlist is not empty.
pub proof fn law_current_song_iff_nonempty(cursor: int, len: int)
    requires
        valid_cursor(cursor, len),
    ensures
        (cursor < len) <==> (len > 0),
{
}

/// On a playlist of `len` songs, `len` steps forward come back to the same song.
pub proof fn law_next_cycles(cursor: int, len: int)
    requires
        valid_cursor(cursor, len),
        len > 0,
    ensures
        steps_forward(cursor, len, len as nat) == cursor,
{
    lemma_steps_forward(cursor, len, (len - cursor) as nat);
    lemma_steps_split(cursor, len, (len - cursor) as nat, cursor as nat);
    lemma_steps_forward(0, len, cursor as nat);
}

/// The cursor after `n` calls of `next`.
pub open spec fn steps_forward(cursor: int, len: int, n: nat) -> int
    decreases n,
{
    if n == 0 {
        cursor
    } else {
        steps_forward(next_cursor(cursor, len), len, (n - 1) as nat)
    }
}

proof fn lemma_steps_forward(cursor: int, len: int, n: nat)
    requires
        0 <= cursor < len,
        cursor + n <= len,
    ensures
        steps_forward(cursor, len, n) == if cursor + n == len { 0 } else { cursor + n },
    decreases n,
{
    if n > 0 {
        lemma_steps_forward(next_cursor(cursor, len), len, (n - 1) as nat);
    }
}

proof fn lemma_steps_split(cursor: int, len: int, a: nat, b: nat)
    ensures
        steps_forward(cursor, len, a + b) == steps_forward(steps_forward(cursor, len, a), len, b),
    decreases a,
{
    if a > 0 {
        lemma_steps_split(next_cursor(cursor, len), len, (a - 1) as nat, b);
        assert((a + b - 1) as nat == ((a - 1) as nat + b) as nat);
    }
}

} // verus!
