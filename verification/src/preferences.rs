//! The preference record of the plotting window.

use crate::alpha::{clamp_unit, clamped, in_unit_interval, is_unit, less, same_number, ONE, ZERO};
use crate::codec::{
    decode, decoding, encode, encoding, is_text, lemma_decoding_of_encoding, Fields,
};
use crate::date::{Date, Ymd};
use crate::legend::{Corner, LegendConfig, TextStyle};
use vstd::prelude::*;

verus! {

/// The preferences as the contracts see them.
///
/// `background_alpha` is the bit pattern of a single-precision number, see
/// [`crate::alpha`].  `selected_date` is the date of the date picker, and is
/// `None` until the picker is first shown.
pub struct Preferences {
    pub text_style: TextStyle,
    pub legend_corner: Corner,
    pub background_alpha: u32,
    pub selected_date: Option<Ymd>,
}

impl Preferences {
    /// What every record is: its opacity is a number of the unit interval, and
    /// its date, if it has one, is a day of the calendar.
    pub open spec fn is_valid(self) -> bool {
        &&& is_unit(self.background_alpha)
        &&& self.selected_date matches Some(date) ==> date.is_valid()
    }

    /// The three settings of the legend.
    pub open spec fn legend(self) -> LegendConfig {
        LegendConfig {
            text_style: self.text_style,
            position: self.legend_corner,
            background_alpha: self.background_alpha,
        }
    }

    /// The record of a first start: the legend's initial settings and no date.
    pub open spec fn initial() -> Preferences {
        Preferences {
            text_style: LegendConfig::initial().text_style,
            legend_corner: LegendConfig::initial().position,
            background_alpha: LegendConfig::initial().background_alpha,
            selected_date: None,
        }
    }

    /// The record that the fields of a blob make: a field that the blob does
    /// not hold has its initial value, an opacity is clamped to the unit
    /// interval, and there is no date.
    pub open spec fn restored(fields: Fields) -> Preferences {
        Preferences {
            text_style: match fields.text_style {
                Some(style) => style,
                None => Self::initial().text_style,
            },
            legend_corner: match fields.position {
                Some(corner) => corner,
                None => Self::initial().legend_corner,
            },
            background_alpha: match fields.background_alpha {
                Some(bits) => clamped(bits),
                None => Self::initial().background_alpha,
            },
            selected_date: None,
        }
    }

    /// The record at start-up: restored from the persisted blob if there is
    /// one and it can be read, and the initial record otherwise.
    pub open spec fn loaded(persisted: Option<Seq<u8>>) -> Preferences {
        match persisted {
            Some(bytes) => match decoding(bytes) {
                Some(fields) => Self::restored(fields),
                None => Self::initial(),
            },
            None => Self::initial(),
        }
    }

    /// The blob that is persisted at shutdown.  It holds the three settings
    /// of the legend and nothing of the date.
    pub open spec fn saved(self) -> Seq<u8> {
        encoding(self.legend())
    }

    /// The record after its date was asked for on the day `today`.
    pub open spec fn dated(self, today: Ymd) -> Preferences {
        match self.selected_date {
            Some(_) => self,
            None => Preferences { selected_date: Some(today), ..self },
        }
    }

    /// The date that the record gives when asked on the day `today`.
    pub open spec fn date_on(self, today: Ymd) -> Ymd {
        match self.selected_date {
            Some(date) => date,
            None => today,
        }
    }

    /// Saving and loading gives the three settings back exactly, and no date.
    pub proof fn lemma_load_of_save(self)
        requires
            self.is_valid(),
        ensures
            Self::loaded(Some(self.saved())) == (Preferences { selected_date: None, ..self }),
    {
        lemma_decoding_of_encoding(self.legend());
    }

    /// What is saved does not depend on the date.
    pub proof fn lemma_save_leaves_date_out(self, date: Option<Ymd>)
        ensures
            (Preferences { selected_date: date, ..self }).saved() == self.saved(),
    {
    }

    /// Without a blob, and with a blob that cannot be read, loading gives the
    /// initial record.
    pub proof fn lemma_load_falls_back(bytes: Seq<u8>)
        requires
            decoding(bytes) is None,
        ensures
            Self::loaded(None) == Self::initial(),
            Self::loaded(Some(bytes)) == Self::initial(),
    {
    }

    /// Whatever is loaded is a valid record without a date.
    pub proof fn lemma_loaded_is_valid(persisted: Option<Seq<u8>>)
        ensures
            Self::loaded(persisted).is_valid(),
            Self::loaded(persisted).selected_date is None,
    {
    }

    /// Asking for the date a second time gives the date of the first time and
    /// changes nothing, whatever day it is by then.
    pub proof fn lemma_date_stays(self, first: Ymd, second: Ymd)
        ensures
            self.dated(first).date_on(second) == self.date_on(first),
            self.dated(first).dated(second) == self.dated(first),
            self.dated(first).selected_date == Some(self.date_on(first)),
    {
    }
}

impl Default for PlotApp {
    /// The preferences of a first start.
    fn default() -> (app: PlotApp)
        ensures
            app@ == Preferences::initial(),
    {
        PlotApp { date: None, config: LegendConfig::default() }
    }
}

/// What was read from persistent storage, as the contracts see it.
pub open spec fn blob_of(persisted: Option<&[u8]>) -> Option<Seq<u8>> {
    match persisted {
        Some(bytes) => Some(bytes@),
        None => None,
    }
}

/// The preferences of the plotting window: the legend's settings, which are
/// persisted, and the date of the date picker, which is not.
#[derive(Clone, Copy, Debug, PartialEq, Eq)]
pub struct PlotApp {
    date: Option<Date>,
    config: LegendConfig,
}

impl View for PlotApp {
    type V = Preferences;

    closed spec fn view(&self) -> Preferences {
        Preferences {
            text_style: self.config.text_style,
            legend_corner: self.config.position,
            background_alpha: self.config.background_alpha,
            selected_date: match self.date {
                Some(date) => Some(date@),
                None => None,
            },
        }
    }
}

impl PlotApp {
    #[verifier::type_invariant]
    closed spec fn well_formed(&self) -> bool {
        self@.is_valid()
    }

    /// The preferences at start-up.  `persisted` is what persistent storage
    /// holds for this window, if it holds anything.
    pub fn new(persisted: Option<&[u8]>) -> (app: PlotApp)
        ensures
            app@ == Preferences::loaded(blob_of(persisted)),
            app@.is_valid(),
    {
        let fields = match persisted {
            Some(bytes) => decode(bytes),
            None => None,
        };
        let initial = LegendConfig::default();
        let config = match fields {
            Some(fields) => LegendConfig {
                text_style: match fields.text_style {
                    Some(style) => style,
                    None => initial.text_style,
                },
                position: match fields.position {
                    Some(corner) => corner,
                    None => initial.position,
                },
                background_alpha: match fields.background_alpha {
                    Some(bits) => clamp_unit(bits),
                    None => initial.background_alpha,
                },
            },
            None => initial,
        };
        PlotApp { date: None, config }
    }

    /// The text style of the legend.
    pub fn text_style(&self) -> (style: TextStyle)
        ensures
            style == self@.text_style,
    {
        self.config.text_style
    }

    /// The corner in which the legend is placed.
    pub fn legend_corner(&self) -> (corner: Corner)
        ensures
            corner == self@.legend_corner,
    {
        self.config.position
    }

    /// The opacity of the legend's background, as a bit pattern.
    pub fn background_alpha(&self) -> (bits: u32)
        ensures
            bits == self@.background_alpha,
            is_unit(bits),
    {
        proof {
            use_type_invariant(self);
        }
        self.config.background_alpha
    }

    /// The date of the date picker, if the picker was shown in this run.
    pub fn date(&self) -> (date: Option<Date>)
        ensures
            self@.selected_date == match date {
                Some(date) => Some(date@),
                None => None,
            },
    {
        self.date
    }

    /// The three settings of the legend, for the plot.
    pub fn legend(&self) -> (config: LegendConfig)
        ensures
            config == self@.legend(),
            is_unit(config.background_alpha),
    {
        proof {
            use_type_invariant(self);
        }
        self.config
    }

    /// The blob to persist at shutdown.
    pub fn save(&self) -> (blob: Vec<u8>)
        ensures
            blob@ == self@.saved(),
            is_text(blob@),
    {
        encode(&self.config)
    }

    /// Sets the opacity of the legend's background to `value`, clamped to the
    /// unit interval.
    pub fn set_background_alpha(&mut self, value: u32)
        ensures
            final(self)@ == (Preferences { background_alpha: clamped(value), ..old(self)@ }),
            final(self)@.is_valid(),
            in_unit_interval(final(self)@.background_alpha),
            in_unit_interval(value) ==> same_number(final(self)@.background_alpha, value),
            is_unit(value) ==> final(self)@.background_alpha == value,
            less(value, ZERO) ==> final(self)@.background_alpha == ZERO,
            less(ONE, value) ==> final(self)@.background_alpha == ONE,
    {
        proof {
            use_type_invariant(&*self);
        }
        self.config.background_alpha = clamp_unit(value);
    }

    /// Sets the text style of the legend.
    pub fn set_text_style(&mut self, style: TextStyle)
        ensures
            final(self)@ == (Preferences { text_style: style, ..old(self)@ }),
    {
        proof {
            use_type_invariant(&*self);
        }
        self.config.text_style = style;
    }

    /// Sets the corner in which the legend is placed.
    pub fn set_legend_corner(&mut self, corner: Corner)
        ensures
            final(self)@ == (Preferences { legend_corner: corner, ..old(self)@ }),
    {
        proof {
            use_type_invariant(&*self);
        }
        self.config.position = corner;
    }

    /// The date of the date picker.  The first time in a run this is today's
    /// date in UTC, which is then kept; after that it is the date that is kept.
    pub fn ensure_date(&mut self) -> (date: Date)
        ensures
            final(self)@ == old(self)@.dated(date@),
            date@ == old(self)@.date_on(date@),
            final(self)@.selected_date == Some(date@),
            date@.is_valid(),
    {
        proof {
            use_type_invariant(&*self);
        }
        match self.date {
            Some(date) => date,
            None => {
                let today = Date::today();
                self.ensure_date_on(today)
            },
        }
    }

    /// Takes the date that the date picker was set to.
    pub fn set_date(&mut self, date: Date)
        ensures
            final(self)@ == (Preferences { selected_date: Some(date@), ..old(self)@ }),
    {
        proof {
            use_type_invariant(&*self);
            use_type_invariant(&date);
        }
        self.date = Some(date);
    }

    /// The date of the date picker, on a day on which the clock says `today`.
    pub fn ensure_date_on(&mut self, today: Date) -> (date: Date)
        ensures
            final(self)@ == old(self)@.dated(today@),
            date@ == old(self)@.date_on(today@),
            final(self)@.selected_date == Some(date@),
            date@.is_valid(),
    {
        proof {
            use_type_invariant(&*self);
            use_type_invariant(&today);
        }
        match self.date {
            Some(date) => date,
            None => {
                self.date = Some(today);
                today
            },
        }
    }
}

} // verus!
