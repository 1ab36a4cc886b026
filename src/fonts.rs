use vstd::prelude::*;

verus! {

/// The index at which a font loaded from a file is registered, once the built-in fonts
/// fill the indices below it.
pub const LOADED_FONT_INDEX: usize = 16;

/// The names of the toolkit's built-in fonts, in index order.
pub open spec fn builtin_font_names() -> Seq<Seq<char>> {
    seq![
        "Helvetica"@,
        "HelveticaBold"@,
        "HelveticaItalic"@,
        "HelveticaBoldItalic"@,
        "Courier"@,
        "CourierBold"@,
        "CourierItalic"@,
        "CourierBoldItalic"@,
        "Times"@,
        "TimesBold"@,
        "TimesItalic"@,
        "TimesBoldItalic"@,
        "Symbol"@,
        "Screen"@,
        "ScreenBold"@,
        "Zapfdingbats"@,
    ]
}

/// The view of a list of names.
pub open spec fn names_view(names: Seq<String>) -> Seq<Seq<char>> {
    names.map_values(|s: String| s@)
}

/// The fonts known to the application, by index.
pub struct FontTable {
    names: Vec<String>,
}

impl View for FontTable {
    type V = Seq<Seq<char>>;

    closed spec fn view(&self) -> Seq<Seq<char>> {
        names_view(self.names@)
    }
}

impl FontTable {
    /// The table of the built-in fonts.
    pub fn builtin() -> (r: FontTable)
        ensures
            r@ == builtin_font_names(),
    {
        proof {
            reveal_strlit("Helvetica");
            reveal_strlit("HelveticaBold");
            reveal_strlit("HelveticaItalic");
            reveal_strlit("HelveticaBoldItalic");
            reveal_strlit("Courier");
            reveal_strlit("CourierBold");
            reveal_strlit("CourierItalic");
            reveal_strlit("CourierBoldItalic");
            reveal_strlit("Times");
            reveal_strlit("TimesBold");
            reveal_strlit("TimesItalic");
            reveal_strlit("TimesBoldItalic");
            reveal_strlit("Symbol");
            reveal_strlit("Screen");
            reveal_strlit("ScreenBold");
            reveal_strlit("Zapfdingbats");
        }
        let names = vec![
            "Helvetica".to_owned(),
            "HelveticaBold".to_owned(),
            "HelveticaItalic".to_owned(),
            "HelveticaBoldItalic".to_owned(),
            "Courier".to_owned(),
            "CourierBold".to_owned(),
            "CourierItalic".to_owned(),
            "CourierBoldItalic".to_owned(),
            "Times".to_owned(),
            "TimesBold".to_owned(),
            "TimesItalic".to_owned(),
            "TimesBoldItalic".to_owned(),
            "Symbol".to_owned(),
            "Screen".to_owned(),
            "ScreenBold".to_owned(),
            "Zapfdingbats".to_owned(),
        ];
        let r = FontTable { names };
        assert(r@ =~= builtin_font_names());
        r
    }

    /// A table of the given names, in order, such as the fonts found on the system.
    pub fn from_names(names: Vec<String>) -> (r: FontTable)
        ensures
            r@ == names_view(names@),
    {
        FontTable { names }
    }

    /// The name of the font at `idx`, or `None` where no font has that index.
    pub fn font_name(&self, idx: usize) -> (r: Option<String>)
        ensures
            idx < self@.len() ==> r is Some && r->0@ == self@[idx as int],
            idx >= self@.len() ==> r is None,
    {
        if idx < self.names.len() {
            Some(self.names[idx].clone())
        } else {
            None
        }
    }

    /// The first index at which a font is named `name`, or `None` where none is.
    pub fn font_index(&self, name: &str) -> (r: Option<usize>)
        ensures
            match r {
                Some(i) => i < self@.len() && self@[i as int] == name@ && forall|j: int|
                    0 <= j < i ==> self@[j] != name@,
                None => forall|j: int| 0 <= j < self@.len() ==> self@[j] != name@,
            },
    {
        let target = name.to_owned();
        let mut i: usize = 0;
        while i < self.names.len()
            invariant
                i <= self.names.len(),
                self@.len() == self.names.len(),
                target@ == name@,
                forall|j: int| 0 <= j < i ==> self@[j] != name@,
            decreases self.names.len() - i,
        {
            if self.names[i] == target {
                return Some(i);
            }
            i = i + 1;
        }
        None
    }

    /// The number of fonts in the table.
    pub fn font_count(&self) -> (r: usize)
        ensures
            r == self@.len(),
    {
        self.names.len()
    }

    /// The names of all fonts, in index order.
    pub fn fonts(&self) -> (r: Vec<String>)
        ensures
            names_view(r@) == self@,
    {
        let mut r: Vec<String> = Vec::new();
        let mut i: usize = 0;
        while i < self.names.len()
            invariant
                i <= self.names.len(),
                self@.len() == self.names.len(),
                names_view(r@) == self@.take(i as int),
            decreases self.names.len() - i,
        {
            let name = self.names[i].clone();
            assert(name@ == self@[i as int]);
            let ghost before = r@;
            r.push(name);
            assert(names_view(r@) =~= names_view(before).push(name@));
            i = i + 1;
            assert(names_view(r@) =~= self@.take(i as int));
        }
        assert(self@.take(i as int) =~= self@);
        r
    }

    /// Registers a font loaded from a file: appended while the table holds fewer than
    /// `LOADED_FONT_INDEX + 1` fonts, otherwise it takes the place of the font at
    /// `LOADED_FONT_INDEX`.
    pub fn register_loaded(&mut self, name: String)
        ensures
            old(self)@.len() <= LOADED_FONT_INDEX ==> final(self)@ == old(self)@.push(name@),
            old(self)@.len() > LOADED_FONT_INDEX ==> final(self)@ == old(self)@.update(
                LOADED_FONT_INDEX as int,
                name@,
            ),
    {
        if self.names.len() <= LOADED_FONT_INDEX {
            self.names.push(name);
            assert(self@ =~= old(self)@.push(name@));
        } else {
            self.names.set(LOADED_FONT_INDEX, name);
            assert(self@ =~= old(self)@.update(LOADED_FONT_INDEX as int, name@));
        }
    }
}

} // verus!
