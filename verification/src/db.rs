//! A small song catalog with lookup by index.

use vstd::prelude::*;

verus! {

/// One song record.
pub struct Song {
    pub name: String,
    pub author: String,
    pub duration: u16,
}

impl Clone for Song {
    /// A deep copy: the clone is the same record, field for field.
    fn clone(&self) -> (r: Song)
        ensures
            r == *self,
    {
        Song { name: self.name.clone(), author: self.author.clone(), duration: self.duration }
    }
}

/// A catalog of songs.
pub struct Database {
    pub songs: Vec<Song>,
}

impl Database {
    /// The song at `index`: present exactly when the index is in range.
    pub fn get_song(&self, index: usize) -> (r: Option<Song>)
        ensures
            match r {
                Option::Some(s) => index < self.songs@.len() && s == self.songs@[index as int],
                Option::None => index >= self.songs@.len(),
            },
    {
        if index >= self.songs.len() {
            return Option::None;
        }
        Option::Some(self.songs[index].clone())
    }
}

} // verus!
