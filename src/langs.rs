//! The interface texts, in English and in Swedish.
use vstd::prelude::*;

verus! {

/// The languages that the interface is offered in.
#[derive(Clone, Copy, Debug, PartialEq, Eq, Structural, PartialOrd, Ord, Hash)]
pub enum Langs {
    English,
    Swedish,
}

impl Langs {
    /// The name under which this language is offered.
    pub fn to_string(&self) -> (r: String)
        ensures
            r@ == match *self {
                Langs::English => "English"@,
                Langs::Swedish => "Swedish"@,
            },
    {
        match self {
            Langs::English => String::from_str("English"),
            Langs::Swedish => String::from_str("Swedish"),
        }
    }

    /// The texts of the interface in this language.
    pub fn texts(&self) -> (r: Language)
        ensures
            *self == Langs::English ==> is_english(r),
            *self == Langs::Swedish ==> is_swedish(r),
    {
        match self {
            Langs::English => get_english(),
            Langs::Swedish => get_swedish(),
        }
    }
}

/// Every text that the interface shows.
pub struct Language {
    pub id: String,
    pub title: String,
    pub deadline: String,
    pub done: String,
    pub present_soon: String,
    pub grade: String,
    pub presenting_type: String,
    pub programming_language: String,
    pub sprint: String,
    pub comment: String,
    pub click_to_sort: String,
    pub right_click_to_filter: String,
    pub no_specific_language: String,
    pub settings: String,
    pub file: String,
    pub edit: String,
    pub clear_done: String,
    pub clear_present_soon: String,
    pub clear_filters: String,
    pub save: String,
    pub date: String,
    pub optimal: String,
    pub minimum: String,
    pub target: String,
    pub minimum_to_reach_target_grade: String,
    pub click_to_hide_passed_labs: String,
    pub click_to_show_passed_labs: String,
    pub click_to_show_achievements_done: String,
    pub click_to_show_achievements_left: String,
    pub lab: String,
    pub font_size: String,
    pub dark_mode: String,
    pub target_grade: String,
    pub max_per_lab: String,
    pub language: String,
    pub git: String,
}

/// Whether `l` holds the English texts.
pub open spec fn is_english(l: Language) -> bool {
    &&& l.id@ == "ID"@
    &&& l.title@ == "Title"@
    &&& l.deadline@ == "Deadline"@
    &&& l.done@ == "Done"@
    &&& l.present_soon@ == "Present Soon"@
    &&& l.grade@ == "Grade"@
    &&& l.presenting_type@ == "Presentation type"@
    &&& l.programming_language@ == "Programming Language"@
    &&& l.sprint@ == "Sprint"@
    &&& l.comment@ == "Comment"@
    &&& l.click_to_sort@ == "Click to sort"@
    &&& l.right_click_to_filter@ == "Right click to filter out\nShift Right click to only show this"@
    &&& l.no_specific_language@ == "No Specific Language"@
    &&& l.settings@ == "Settings"@
    &&& l.file@ == "File"@
    &&& l.edit@ == "Edit"@
    &&& l.clear_done@ == "Clear Done"@
    &&& l.clear_present_soon@ == "Clear Present Soon"@
    &&& l.clear_filters@ == "Clear Filters"@
    &&& l.save@ == "Save"@
    &&& l.date@ == "Date"@
    &&& l.optimal@ == "Optimal"@
    &&& l.minimum@ == "Minimum"@
    &&& l.target@ == "Target"@
    &&& l.minimum_to_reach_target_grade@ == "Minimum to reach target grade"@
    &&& l.click_to_hide_passed_labs@ == "Click to hide passed labs"@
    &&& l.click_to_show_passed_labs@ == "Click to show passed labs"@
    &&& l.click_to_show_achievements_done@ == "Click to show achievements done"@
    &&& l.click_to_show_achievements_left@ == "Click to show achievements left"@
    &&& l.lab@ == "Lab"@
    &&& l.font_size@ == "Font Size"@
    &&& l.dark_mode@ == "Dark Mode"@
    &&& l.target_grade@ == "Target Grade"@
    &&& l.max_per_lab@ == "Max Achievements Per Lab"@
    &&& l.language@ == "Language"@
    &&& l.git@ == "Use Git To Sync"@
}

/// Whether `l` holds the Swedish texts.
pub open spec fn is_swedish(l: Language) -> bool {
    &&& l.id@ == "ID"@
    &&& l.title@ == "Namn"@
    &&& l.deadline@ == "Deadline"@
    &&& l.done@ == "Färdig"@
    &&& l.present_soon@ == "Presentera snart"@
    &&& l.grade@ == "Betyg"@
    &&& l.presenting_type@ == "Typ av presentation"@
    &&& l.programming_language@ == "Programmeringsspråk"@
    &&& l.sprint@ == "Sprint"@
    &&& l.comment@ == "Kommentar"@
    &&& l.click_to_sort@ == "Klicka för att sortera"@
    &&& l.right_click_to_filter@ == "Högerklicka för att filtrera bort\nSkift + Högerklicka för att visa endast denna"@
    &&& l.no_specific_language@ == "Inget Specifikt Språk"@
    &&& l.settings@ == "Inställningar"@
    &&& l.file@ == "Arkiv"@
    &&& l.edit@ == "Redigera"@
    &&& l.clear_done@ == "Rensa Färdiga"@
    &&& l.clear_present_soon@ == "Rensa Presentera Snart"@
    &&& l.clear_filters@ == "Rensa Filter"@
    &&& l.save@ == "Spara"@
    &&& l.date@ == "Datum"@
    &&& l.optimal@ == "Optimalt"@
    &&& l.minimum@ == "Minimum"@
    &&& l.target@ == "Mål"@
    &&& l.minimum_to_reach_target_grade@ == "Minimum för att nå betyg"@
    &&& l.click_to_hide_passed_labs@ == "Klicka för att dölja passerade labbar"@
    &&& l.click_to_show_passed_labs@ == "Klicka för att visa passerade labbar"@
    &&& l.click_to_show_achievements_done@ == "Klicka för att visa färdiga achievements"@
    &&& l.click_to_show_achievements_left@ == "Klicka för att visa kvarvarande achievements"@
    &&& l.lab@ == "Lab"@
    &&& l.font_size@ == "Textstorlek"@
    &&& l.dark_mode@ == "Mörkt Tema"@
    &&& l.target_grade@ == "Målbetyg"@
    &&& l.max_per_lab@ == "Max Achievements Per Lab"@
    &&& l.language@ == "Språk"@
    &&& l.git@ == "Använd Git För Att Synka"@
}

/// The English texts.
pub fn get_english() -> (r: Language)
    ensures
        is_english(r),
{
    Language {
        id: String::from_str("ID"),
        title: String::from_str("Title"),
        deadline: String::from_str("Deadline"),
        done: String::from_str("Done"),
        present_soon: String::from_str("Present Soon"),
        grade: String::from_str("Grade"),
        presenting_type: String::from_str("Presentation type"),
        programming_language: String::from_str("Programming Language"),
        sprint: String::from_str("Sprint"),
        comment: String::from_str("Comment"),
        click_to_sort: String::from_str("Click to sort"),
        right_click_to_filter: String::from_str("Right click to filter out\nShift Right click to only show this"),
        no_specific_language: String::from_str("No Specific Language"),
        settings: String::from_str("Settings"),
        file: String::from_str("File"),
        edit: String::from_str("Edit"),
        clear_done: String::from_str("Clear Done"),
        clear_present_soon: String::from_str("Clear Present Soon"),
        clear_filters: String::from_str("Clear Filters"),
        save: String::from_str("Save"),
        date: String::from_str("Date"),
        optimal: String::from_str("Optimal"),
        minimum: String::from_str("Minimum"),
        target: String::from_str("Target"),
        minimum_to_reach_target_grade: String::from_str("Minimum to reach target grade"),
        click_to_hide_passed_labs: String::from_str("Click to hide passed labs"),
        click_to_show_passed_labs: String::from_str("Click to show passed labs"),
        click_to_show_achievements_done: String::from_str("Click to show achievements done"),
        click_to_show_achievements_left: String::from_str("Click to show achievements left"),
        lab: String::from_str("Lab"),
        font_size: String::from_str("Font Size"),
        dark_mode: String::from_str("Dark Mode"),
        target_grade: String::from_str("Target Grade"),
        max_per_lab: String::from_str("Max Achievements Per Lab"),
        language: String::from_str("Language"),
        git: String::from_str("Use Git To Sync"),
    }
}

/// The Swedish texts.
pub fn get_swedish() -> (r: Language)
    ensures
        is_swedish(r),
{
    Language {
        id: String::from_str("ID"),
        title: String::from_str("Namn"),
        deadline: String::from_str("Deadline"),
        done: String::from_str("Färdig"),
        present_soon: String::from_str("Presentera snart"),
        grade: String::from_str("Betyg"),
        presenting_type: String::from_str("Typ av presentation"),
        programming_language: String::from_str("Programmeringsspråk"),
        sprint: String::from_str("Sprint"),
        comment: String::from_str("Kommentar"),
        click_to_sort: String::from_str("Klicka för att sortera"),
        right_click_to_filter: String::from_str("Högerklicka för att filtrera bort\nSkift + Högerklicka för att visa endast denna"),
        no_specific_language: String::from_str("Inget Specifikt Språk"),
        settings: String::from_str("Inställningar"),
        file: String::from_str("Arkiv"),
        edit: String::from_str("Redigera"),
        clear_done: String::from_str("Rensa Färdiga"),
        clear_present_soon: String::from_str("Rensa Presentera Snart"),
        clear_filters: String::from_str("Rensa Filter"),
        save: String::from_str("Spara"),
        date: String::from_str("Datum"),
        optimal: String::from_str("Optimalt"),
        minimum: String::from_str("Minimum"),
        target: String::from_str("Mål"),
        minimum_to_reach_target_grade: String::from_str("Minimum för att nå betyg"),
        click_to_hide_passed_labs: String::from_str("Klicka för att dölja passerade labbar"),
        click_to_show_passed_labs: String::from_str("Klicka för att visa passerade labbar"),
        click_to_show_achievements_done: String::from_str("Klicka för att visa färdiga achievements"),
        click_to_show_achievements_left: String::from_str("Klicka för att visa kvarvarande achievements"),
        lab: String::from_str("Lab"),
        font_size: String::from_str("Textstorlek"),
        dark_mode: String::from_str("Mörkt Tema"),
        target_grade: String::from_str("Målbetyg"),
        max_per_lab: String::from_str("Max Achievements Per Lab"),
        language: String::from_str("Språk"),
        git: String::from_str("Använd Git För Att Synka"),
    }
}

} // verus!
