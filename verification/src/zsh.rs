use vstd::prelude::*;

verus! {

/// A piece of prompt text together with its presentation: a bold flag and an
/// optional named foreground color.
pub struct ZshOutput {
    pub is_bold: bool,
    pub color: Option<String>,
    pub text: String,
}

/// The prompt markup for a text with the given presentation: bold-on (`%B`),
/// color-on (`%F{name}`), the text, color-off (`%f`), bold-off (`%b`); each
/// pair appears only when the corresponding flag or field is set.
pub open spec fn render_parts(text: Seq<char>, color: Option<Seq<char>>, bold: bool) -> Seq<char> {
    let bold_on: Seq<char> = if bold { "%B"@ } else { Seq::<char>::empty() };
    let bold_off: Seq<char> = if bold { "%b"@ } else { Seq::<char>::empty() };
    let color_on: Seq<char> = match color {
        Some(c) => "%F{"@ + c + "}"@,
        None => Seq::<char>::empty(),
    };
    let color_off: Seq<char> = match color {
        Some(c) => "%f"@,
        None => Seq::<char>::empty(),
    };
    bold_on + color_on + text + color_off + bold_off
}

/// The views of two status labels agree: same text, same color, same
/// boldness. Such labels render to the same markup.
pub open spec fn output_eq(a: ZshOutput, b: ZshOutput) -> bool {
    a.text@ == b.text@ && a.color_view() == b.color_view() && a.is_bold == b.is_bold
}

impl ZshOutput {
    /// The view of the optional color field.
    pub open spec fn color_view(self) -> Option<Seq<char>> {
        match self.color {
            Some(c) => Some(c@),
            None => None,
        }
    }

    /// The markup this value renders to.
    pub open spec fn render(self) -> Seq<char> {
        render_parts(self.text@, self.color_view(), self.is_bold)
    }

    /// Plain text, no color, not bold.
    pub fn new(text: &str) -> (r: ZshOutput)
        ensures
            r.text@ == text@,
            r.color is None,
            !r.is_bold,
    {
        ZshOutput { text: String::from_str(text), is_bold: false, color: None }
    }

    /// Sets the foreground color, leaving text and boldness alone.
    pub fn set_color(&mut self, color: &str)
        ensures
            final(self).color_view() == Some(color@),
            final(self).text@ == old(self).text@,
            final(self).is_bold == old(self).is_bold,
    {
        self.color = Some(String::from_str(color));
    }

    /// Turns boldness on, leaving text and color alone.
    pub fn make_bold(&mut self)
        ensures
            final(self).is_bold,
            final(self).text@ == old(self).text@,
            final(self).color_view() == old(self).color_view(),
    {
        self.is_bold = true;
    }

    /// Renders the markup string: bold-on, color-on, text, color-off, bold-off.
    pub fn output(&self) -> (r: String)
        ensures
            r@ == self.render(),
    {
        let mut result = String::new();

        if self.is_bold {
            result.append("%B");
        }

        match self.color {
            Some(ref c) => {
                result.append("%F{");
                result.append(c.as_str());
                result.append("}");
            }
            None => {}
        }

        result.append(self.text.as_str());

        match self.color {
            Some(ref _c) => result.append("%f"),
            None => {}
        }

        if self.is_bold {
            result.append("%b");
        }

        proof {
            assert(result@ =~= self.render());
        }
        result
    }
}

} // verus!
