use crate::flags::Flags;
use vstd::prelude::*;

verus! {

/// The class that the root element carries unless a builder replaces it.
pub open spec fn default_class() -> Seq<char> {
    seq!['p', 'i', 'k', 'c', 'h', 'r']
}

/// The words of `vs` joined by single spaces.
pub open spec fn joined(vs: Seq<Seq<char>>) -> Seq<char>
    decreases vs.len(),
{
    if vs.len() == 0 {
        Seq::empty()
    } else if vs.len() == 1 {
        vs[0]
    } else {
        joined(vs.drop_last()) + seq![' '] + vs.last()
    }
}

/// The views of a list of string slices.
pub open spec fn views(vs: Seq<&str>) -> Seq<Seq<char>> {
    vs.map_values(|v: &str| v@)
}

/// The set of options that the renderer takes.
///
/// Use the [`OptionsBuilder`] to construct it.
#[derive(Debug, Clone, PartialEq)]
pub struct Options {
    flags: Flags,
    width: u32,
    height: u32,
    class: String,
}

impl Options {
    pub closed spec fn spec_flags(&self) -> Flags {
        self.flags
    }

    pub closed spec fn spec_width(&self) -> u32 {
        self.width
    }

    pub closed spec fn spec_height(&self) -> u32 {
        self.height
    }

    pub closed spec fn spec_class(&self) -> Seq<char> {
        self.class@
    }

    pub fn flags(&self) -> (r: Flags)
        ensures
            r == self.spec_flags(),
    {
        self.flags
    }

    pub fn width(&self) -> (r: u32)
        ensures
            r == self.spec_width(),
    {
        self.width
    }

    pub fn height(&self) -> (r: u32)
        ensures
            r == self.spec_height(),
    {
        self.height
    }

    pub fn class(&self) -> (r: &str)
        ensures
            r@ == self.spec_class(),
    {
        self.class.as_str()
    }
}

/// Collects the options one by one; `build` then hands them over.
#[derive(Debug, Clone)]
pub struct OptionsBuilder {
    flags: Flags,
    width: u32,
    height: u32,
    class: String,
}

impl Default for OptionsBuilder {
    fn default() -> (r: OptionsBuilder)
        ensures
            r.spec_flags().spec_bits() == 0,
            r.spec_width() == 0,
            r.spec_height() == 0,
            r.spec_class() == default_class(),
    {
        let class = String::from_str("pikchr");
        proof {
            reveal_strlit("pikchr");
        }
        OptionsBuilder { flags: Flags::empty(), width: 0, height: 0, class }
    }
}

impl OptionsBuilder {
    pub closed spec fn spec_flags(&self) -> Flags {
        self.flags
    }

    pub closed spec fn spec_width(&self) -> u32 {
        self.width
    }

    pub closed spec fn spec_height(&self) -> u32 {
        self.height
    }

    pub closed spec fn spec_class(&self) -> Seq<char> {
        self.class@
    }

    pub fn flags(&mut self, flags: Flags)
        ensures
            final(self).spec_flags() == flags,
            final(self).spec_width() == old(self).spec_width(),
            final(self).spec_height() == old(self).spec_height(),
            final(self).spec_class() == old(self).spec_class(),
    {
        self.flags = flags;
    }

    pub fn width(&mut self, width: u32)
        ensures
            final(self).spec_flags() == old(self).spec_flags(),
            final(self).spec_width() == width,
            final(self).spec_height() == old(self).spec_height(),
            final(self).spec_class() == old(self).spec_class(),
    {
        self.width = width;
    }

    pub fn height(&mut self, height: u32)
        ensures
            final(self).spec_flags() == old(self).spec_flags(),
            final(self).spec_width() == old(self).spec_width(),
            final(self).spec_height() == height,
            final(self).spec_class() == old(self).spec_class(),
    {
        self.height = height;
    }

    /// Replaces the whole value of `class`. See [`OptionsBuilder::classes`]
    /// to append a list of values.
    ///
    /// It starts out as `pikchr`.
    pub fn class(&mut self, class: &str)
        ensures
            final(self).spec_flags() == old(self).spec_flags(),
            final(self).spec_width() == old(self).spec_width(),
            final(self).spec_height() == old(self).spec_height(),
            final(self).spec_class() == class@,
    {
        self.class = String::from_str(class);
    }

    /// Appends a space and then `values` joined by spaces to `class`.
    pub fn classes(&mut self, values: &[&str])
        ensures
            final(self).spec_flags() == old(self).spec_flags(),
            final(self).spec_width() == old(self).spec_width(),
            final(self).spec_height() == old(self).spec_height(),
            final(self).spec_class() == old(self).spec_class() + seq![' '] + joined(
                views(values@),
            ),
    {
        let ghost start = self.class@;
        proof {
            reveal_strlit(" ");
        }
        self.class.append(" ");
        let mut i: usize = 0;
        while i < values.len()
            invariant
                0 <= i <= values@.len(),
                self.flags == old(self).flags,
                self.width == old(self).width,
                self.height == old(self).height,
                self.class@ == start + seq![' '] + joined(views(values@.subrange(0, i as int))),
            decreases values@.len() - i,
        {
            let ghost before = self.class@;
            let v: &str = values[i];
            if i > 0 {
                self.class.append(" ");
            }
            self.class.append(v);
            proof {
                reveal_strlit(" ");
                let vs = views(values@.subrange(0, i as int + 1));
                assert(vs.drop_last() =~= views(values@.subrange(0, i as int)));
                assert(vs.last() == v@);
                let prev = joined(views(values@.subrange(0, i as int)));
                if i == 0 {
                    assert(vs =~= seq![v@]);
                    assert(self.class@ =~= start + seq![' '] + joined(vs));
                } else {
                    assert(joined(vs) == prev + seq![' '] + v@);
                    assert(self.class@ =~= start + seq![' '] + joined(vs));
                }
            }
            i = i + 1;
        }
        proof {
            assert(values@.subrange(0, values@.len() as int) =~= values@);
        }
    }

    /// Builds the set of options.
    pub fn build(self) -> (r: Options)
        ensures
            r.spec_flags() == self.spec_flags(),
            r.spec_width() == self.spec_width(),
            r.spec_height() == self.spec_height(),
            r.spec_class() == self.spec_class(),
    {
        Options { flags: self.flags, width: self.width, height: self.height, class: self.class }
    }
}

} // verus!
