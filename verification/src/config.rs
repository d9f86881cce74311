//! The configuration data model: the persisted root value and its fixed
//! color scheme, together with their mathematical models.

use vstd::prelude::*;

verus! {

/// The root persisted value: the user's music library path and the theme.
///
/// Once constructed there is no partial state: every theme field is present,
/// and on the construction path the music database path is never empty.
#[derive(Clone, Debug, PartialEq)]
pub struct InitConfig {
    pub music_database: String,
    pub theme: InitTheme,
}

/// The fixed record of named UI colors.  The set of fields is closed: a
/// configuration either has all of them or does not parse.
#[derive(Clone, Debug, PartialEq)]
pub struct InitTheme {
    pub list_title_color: String,
    pub list_title_page_color: String,
    pub list_border_color: String,
    pub list_music_color: String,
    pub list_folder_color: String,
    pub list_icon_color: String,
    pub list_selected_color: String,
    pub search_border_color: String,
    pub search_icon_color: String,
    pub search_font_color: String,
    pub command_font_color: String,
    pub command_border_color: String,
    pub music_pic_color1: String,
    pub music_pic_color2: String,
    pub usage_color_left: String,
    pub usage_color_right: String,
    pub cut_off_rule_color: String,
    pub play_music_list_title_color: String,
    pub play_music_list_border_color: String,
    pub play_music_list_id_color: String,
    pub play_music_list_duration_color: String,
    pub play_music_list_name_color: String,
    pub play_music_list_artist_color: String,
    pub play_music_list_album_color: String,
    pub play_music_list_header_color: String,
    pub playing_music_border_color: String,
    pub playing_music_name_color: String,
    pub volume_icon_color: String,
    pub volume_value_color: String,
    pub gauge_color: String,
    pub gauge_border_color: String,
    pub gauge_label_color: String,
}

/// The mathematical model of a theme: each color as a sequence of characters.
#[verifier::ext_equal]
pub ghost struct ThemeModel {
    pub list_title_color: Seq<char>,
    pub list_title_page_color: Seq<char>,
    pub list_border_color: Seq<char>,
    pub list_music_color: Seq<char>,
    pub list_folder_color: Seq<char>,
    pub list_icon_color: Seq<char>,
    pub list_selected_color: Seq<char>,
    pub search_border_color: Seq<char>,
    pub search_icon_color: Seq<char>,
    pub search_font_color: Seq<char>,
    pub command_font_color: Seq<char>,
    pub command_border_color: Seq<char>,
    pub music_pic_color1: Seq<char>,
    pub music_pic_color2: Seq<char>,
    pub usage_color_left: Seq<char>,
    pub usage_color_right: Seq<char>,
    pub cut_off_rule_color: Seq<char>,
    pub play_music_list_title_color: Seq<char>,
    pub play_music_list_border_color: Seq<char>,
    pub play_music_list_id_color: Seq<char>,
    pub play_music_list_duration_color: Seq<char>,
    pub play_music_list_name_color: Seq<char>,
    pub play_music_list_artist_color: Seq<char>,
    pub play_music_list_album_color: Seq<char>,
    pub play_music_list_header_color: Seq<char>,
    pub playing_music_border_color: Seq<char>,
    pub playing_music_name_color: Seq<char>,
    pub volume_icon_color: Seq<char>,
    pub volume_value_color: Seq<char>,
    pub gauge_color: Seq<char>,
    pub gauge_border_color: Seq<char>,
    pub gauge_label_color: Seq<char>,
}

/// The mathematical model of a configuration.
#[verifier::ext_equal]
pub ghost struct ConfigModel {
    pub music_database: Seq<char>,
    pub theme: ThemeModel,
}

impl View for InitTheme {
    type V = ThemeModel;

    open spec fn view(&self) -> ThemeModel {
        ThemeModel {
            list_title_color: self.list_title_color@,
            list_title_page_color: self.list_title_page_color@,
            list_border_color: self.list_border_color@,
            list_music_color: self.list_music_color@,
            list_folder_color: self.list_folder_color@,
            list_icon_color: self.list_icon_color@,
            list_selected_color: self.list_selected_color@,
            search_border_color: self.search_border_color@,
            search_icon_color: self.search_icon_color@,
            search_font_color: self.search_font_color@,
            command_font_color: self.command_font_color@,
            command_border_color: self.command_border_color@,
            music_pic_color1: self.music_pic_color1@,
            music_pic_color2: self.music_pic_color2@,
            usage_color_left: self.usage_color_left@,
            usage_color_right: self.usage_color_right@,
            cut_off_rule_color: self.cut_off_rule_color@,
            play_music_list_title_color: self.play_music_list_title_color@,
            play_music_list_border_color: self.play_music_list_border_color@,
            play_music_list_id_color: self.play_music_list_id_color@,
            play_music_list_duration_color: self.play_music_list_duration_color@,
            play_music_list_name_color: self.play_music_list_name_color@,
            play_music_list_artist_color: self.play_music_list_artist_color@,
            play_music_list_album_color: self.play_music_list_album_color@,
            play_music_list_header_color: self.play_music_list_header_color@,
            playing_music_border_color: self.playing_music_border_color@,
            playing_music_name_color: self.playing_music_name_color@,
            volume_icon_color: self.volume_icon_color@,
            volume_value_color: self.volume_value_color@,
            gauge_color: self.gauge_color@,
            gauge_border_color: self.gauge_border_color@,
            gauge_label_color: self.gauge_label_color@,
        }
    }
}

impl View for InitConfig {
    type V = ConfigModel;

    open spec fn view(&self) -> ConfigModel {
        ConfigModel { music_database: self.music_database@, theme: self.theme@ }
    }
}

/// The hard-coded default color scheme written on first run.
pub open spec fn default_theme_model() -> ThemeModel {
    ThemeModel {
        list_title_color: "#ffaaff"@,
        list_title_page_color: "#ffb747"@,
        list_border_color: "#ffffff"@,
        list_music_color: "#eee4c4"@,
        list_folder_color: "#eee4c4"@,
        list_icon_color: "#f07178"@,
        list_selected_color: "#c3e88d"@,
        search_border_color: "#ffb747"@,
        search_icon_color: "#ec998b"@,
        search_font_color: "#eee4c4"@,
        command_font_color: "#eee4c4"@,
        command_border_color: "#c3eead"@,
        music_pic_color1: "#f07178"@,
        music_pic_color2: "#81a8fd"@,
        usage_color_left: "#beb2ec"@,
        usage_color_right: "#eee188"@,
        cut_off_rule_color: "#c3e88d"@,
        play_music_list_title_color: "#81a8fd"@,
        play_music_list_border_color: "#ffaaff"@,
        play_music_list_id_color: "#e0d7ca"@,
        play_music_list_duration_color: "#a9c34f"@,
        play_music_list_name_color: "#eee4c4"@,
        play_music_list_artist_color: "#b2e2e4"@,
        play_music_list_album_color: "#eee188"@,
        play_music_list_header_color: "#d15aa7"@,
        playing_music_border_color: "#81a8fd"@,
        playing_music_name_color: "#d8ce2e"@,
        volume_icon_color: "#9998af"@,
        volume_value_color: "#dcd8da"@,
        gauge_color: "#cece68"@,
        gauge_border_color: "#abcc7e"@,
        gauge_label_color: "#fa4d70"@,
    }
}

/// A configuration is valid when its music database path is non-empty; the
/// construction path establishes this and never revisits it.
pub open spec fn config_valid(c: ConfigModel) -> bool {
    c.music_database.len() > 0
}

impl Default for InitTheme {
    /// Builds exactly the default color scheme.
    fn default() -> (r: InitTheme)
        ensures
            r@ == default_theme_model(),
    {
        let r = InitTheme {
            list_title_color: String::from_str("#ffaaff"),
            list_title_page_color: String::from_str("#ffb747"),
            list_border_color: String::from_str("#ffffff"),
            list_music_color: String::from_str("#eee4c4"),
            list_folder_color: String::from_str("#eee4c4"),
            list_icon_color: String::from_str("#f07178"),
            list_selected_color: String::from_str("#c3e88d"),
            search_border_color: String::from_str("#ffb747"),
            search_icon_color: String::from_str("#ec998b"),
            search_font_color: String::from_str("#eee4c4"),
            command_font_color: String::from_str("#eee4c4"),
            command_border_color: String::from_str("#c3eead"),
            music_pic_color1: String::from_str("#f07178"),
            music_pic_color2: String::from_str("#81a8fd"),
            usage_color_left: String::from_str("#beb2ec"),
            usage_color_right: String::from_str("#eee188"),
            cut_off_rule_color: String::from_str("#c3e88d"),
            play_music_list_title_color: String::from_str("#81a8fd"),
            play_music_list_border_color: String::from_str("#ffaaff"),
            play_music_list_id_color: String::from_str("#e0d7ca"),
            play_music_list_duration_color: String::from_str("#a9c34f"),
            play_music_list_name_color: String::from_str("#eee4c4"),
            play_music_list_artist_color: String::from_str("#b2e2e4"),
            play_music_list_album_color: String::from_str("#eee188"),
            play_music_list_header_color: String::from_str("#d15aa7"),
            playing_music_border_color: String::from_str("#81a8fd"),
            playing_music_name_color: String::from_str("#d8ce2e"),
            volume_icon_color: String::from_str("#9998af"),
            volume_value_color: String::from_str("#dcd8da"),
            gauge_color: String::from_str("#cece68"),
            gauge_border_color: String::from_str("#abcc7e"),
            gauge_label_color: String::from_str("#fa4d70"),
        };
        proof {
            assert(r@ =~= default_theme_model());
        }
        r
    }
}

impl InitConfig {
    /// Combines a (validated) music database path with the default theme.
    pub fn with_default_theme(music_database: String) -> (r: InitConfig)
        requires
            music_database@.len() > 0,
        ensures
            r@.music_database == music_database@,
            r@.theme == default_theme_model(),
            config_valid(r@),
    {
        InitConfig { music_database, theme: InitTheme::default() }
    }
}

} // verus!
