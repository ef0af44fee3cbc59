use vstd::prelude::*;
use crate::seqs::lemma_map_push;

verus! {

/// A bibliography field and what it is for.
#[derive(Debug, Clone, Copy)]
pub struct BibtexField {
    pub name: &'static str,
    pub documentation: &'static str,
}

/// How many bibliography fields are known.
pub const BIBTEX_FIELD_COUNT: usize = 146;

/// The known field at position `i`, as its name and documentation.
pub open spec fn bibtex_field_at(i: usize) -> (Seq<char>, Seq<char>) {
    match i {
        0 => ("abstract"@, "This field is intended for recording abstracts in a bib file, to be printed by a special bibliography style. It is not used by all standard bibliography styles."@),
        1 => ("addendum"@, "Miscellaneous bibliographic data to be printed at the end of the entry. This is similar to the `note` field except that it is printed at the end of the bibliography entry."@),
        2 => ("afterword"@, "The author(s) of an afterword to the work. If the author of the afterword is identical to the `editor` and/or `translator`, the standard styles will automatically concatenate these fields in the bibliography. See also `introduction` and `foreword`."@),
        3 => ("annotation"@, "This field may be useful when implementing a style for annotated bibliographies. It is not used by all standard bibliography styles. Note that this field is completely unrelated to `annotator`. The `annotator` is the author of annotations which are part of the work cited."@),
        4 => ("annotator"@, "The author(s) of annotations to the work. If the annotator is identical to the `editor` and/or `translator`, the standard styles will automatically concatenate these fields in the bibliography. See also `commentator`."@),
        5 => ("author"@, "The author(s) of the `title`."@),
        6 => ("authortype"@, "The type of author. This field will affect the string (if any) used to introduce the author. Not used by the standard bibliography styles."@),
        7 => ("bookauthor"@, "The author(s) of the `booktitle`."@),
        8 => ("bookpagination"@, "If the work is published as part of another one, this is the pagination scheme of the enclosing work, i. e., `bookpagination` relates to `pagination` like `booktitle` to `title`. The value of this field will affect the formatting of the `pages` and `pagetotal` fields. The key should be given in the singular form. Possible keys are `page`, `column`, `line`, `verse`, `section`, and `paragraph`. See also `pagination`."@),
        9 => ("booksubtitle"@, "The subtitle related to the `booktitle`. If the subtitle field refers to a work which is part of a larger publication, a possible subtitle of the main work is given in this field. See also `subtitle`."@),
        10 => ("booktitle"@, "If the `title` field indicates the title of a work which is part of a larger publication, the title of the main work is given in this field. See also `title`."@),
        11 => ("booktitleaddon"@, "An annex to the `booktitle`, to be printed in a different font."@),
        12 => ("chapter"@, "A chapter or section or any other unit of a work."@),
        13 => ("commentator"@, "The author(s) of a commentary to the work. Note that this field is intended for commented editions which have a commentator in addition to the author. If the work is a stand-alone commentary, the commentator should be given in the `author` field. If the commentator is identical to the `editor` and/or `translator`, the standard styles will automatically concatenate these fields in the bibliography. See also `annotator`."@),
        14 => ("date"@, "The publication date. See also `month` and `year`."@),
        15 => ("doi"@, "The Digital Object Identifier of the work."@),
        16 => ("edition"@, "The edition of a printed publication. This must be an integer, not an ordinal. Don’t say `edition={First}` or `edition={1st}` but `edition={1}`. The bibliography style converts this to a language dependent ordinal. It is also possible to give the edition as a literal string, for example \"Third, revised and expanded edition\"."@),
        17 => ("editor"@, "The editor(s) of the `title`, `booktitle`, or `maintitle`, depending on the entry type. Use the `editortype` field to specify the role if it is different from `editor`."@),
        18 => ("editora"@, "A secondary editor performing a different editorial role, such as compiling, redacting, etc. Use the `editoratype` field to specify the role."@),
        19 => ("editorb"@, "Another secondary editor performing a different role. Use the `editorbtype` field to specify the role."@),
        20 => ("editorc"@, "Another secondary editor performing a different role. Use the `editorctype` field to specify the role."@),
        21 => ("editortype"@, "The type of editorial role performed by the `editor`. Roles supported by default are `editor`, `compiler`, `founder`, `continuator`, `redactor`, `reviser`, `collaborator`, `organizer`. The role `editor` is the default. In this case, the field is omissible."@),
        22 => ("editoratype"@, "Similar to `editortype` but referring to the `editora` field."@),
        23 => ("editorbtype"@, "Similar to `editortype` but referring to the `editorb` field."@),
        24 => ("editorctype"@, "Similar to `editortype` but referring to the `editorc` field."@),
        25 => ("eid"@, "The electronic identifier of an `@article`."@),
        26 => ("entrysubtype"@, "This field, which is not used by the standard styles, may be used to specify a subtype of an entry type. This may be useful for bibliography styles which support a finergrained set of entry types."@),
        27 => ("eprint"@, "The electronic identifier of an online publication. This is roughly comparable to a doi but specific to a certain archive, repository, service, or system. See also `eprinttype` and `eprintclass`."@),
        28 => ("eprintclass"@, "Additional information related to the resource indicated by the `eprinttype` field. This could be a section of an archive, a path indicating a service, a classification of some sort, etc. See also`eprint` and `eprinttype`."@),
        29 => ("eprinttype"@, "The type of `eprint` identifier, e. g., the name of the archive, repository, service, or system the `eprint` field refers to. See also `eprint` and `eprintclass`."@),
        30 => ("eventdate"@, "The date of a conference, a symposium, or some other event in `@proceedings` and `@inproceedings` entries. See also `eventtitle` and `venue`."@),
        31 => ("eventtitle"@, "The title of a conference, a symposium, or some other event in `@proceedings` and `@inproceedings` entries. Note that this field holds the plain title of the event. Things like \"Proceedings of the Fifth XYZ Conference\" go into the `titleaddon` or `booktitleaddon` field, respectively. See also `eventdate` and `venue`."@),
        32 => ("eventtitleaddon"@, "An annex to the `eventtitle` field. Can be used for known event acronyms, for example."@),
        33 => ("file"@, "A local link to a PDF or other version of the work. Not used by the standard bibliography styles."@),
        34 => ("foreword"@, "The author(s) of a foreword to the work. If the author of the foreword is identical to the `editor` and/or `translator`, the standard styles will automatically concatenate these fields in the bibliography. See also `introduction` and `afterword`."@),
        35 => ("holder"@, "The holder(s) of a `@patent`, if different from the `author`. Note that corporate holders need to be wrapped in an additional set of braces."@),
        36 => ("howpublished"@, "A publication notice for unusual publications which do not fit into any of the common categories."@),
        37 => ("indextitle"@, "A title to use for indexing instead of the regular `title` field. This field may be useful if you have an entry with a title like \"An Introduction to …\" and want that indexed as \"Introduction to …, An\". Style authors should note that `biblatex` automatically copies the value of the `title` field to `indextitle` if the latter field is undefined."@),
        38 => ("institution"@, "The name of a university or some other institution, depending on the entry type. Traditional BibTeX uses the field name `school` for theses, which is supported as an alias."@),
        39 => ("introduction"@, "The author(s) of an introduction to the work. If the author of the introduction is identical to the `editor` and/or `translator`, the standard styles will automatically concatenate these fields in the bibliography. See also `foreword` and `afterword`."@),
        40 => ("isan"@, "The International Standard Audiovisual Number of an audiovisual work. Not used by the standard bibliography styles."@),
        41 => ("isbn"@, "The International Standard Book Number of a book."@),
        42 => ("ismn"@, "The International Standard Music Number for printed music such as musical scores. Not used by the standard bibliography styles."@),
        43 => ("isrn"@, "The International Standard Technical Report Number of a technical report."@),
        44 => ("issn"@, "The International Standard Serial Number of a periodical."@),
        45 => ("issue"@, "The issue of a journal. This field is intended for journals whose individual issues are identified by a designation such as ‘Spring’ or ‘Summer’ rather than the month or a number. The placement of `issue` is similar to `month` and `number`, integer ranges and short designators are better written to the number field. See also `month` and `number`."@),
        46 => ("issuesubtitle"@, "The subtitle of a specific issue of a journal or other periodical."@),
        47 => ("issuetitle"@, "The title of a specific issue of a journal or other periodical."@),
        48 => ("iswc"@, "The International Standard Work Code of a musical work. Not used by the standard bibliography styles."@),
        49 => ("journalsubtitle"@, "The subtitle of a journal, a newspaper, or some other periodical."@),
        50 => ("journaltitle"@, "The name of a journal, a newspaper, or some other periodical."@),
        51 => ("label"@, "A designation to be used by the citation style as a substitute for the regular label if any data required to generate the regular label is missing. For example, when an author-year citation style is generating a citation for an entry which is missing the author or the year, it may fall back to `label`. Note that, in contrast to `shorthand`, `label` is only used as a fallback. See also `shorthand`."@),
        52 => ("language"@, "The language(s) of the work. Languages may be specified literally or as localisation keys. If localisation keys are used, the prefix lang is omissible. See also `origlanguage`."@),
        53 => ("library"@, "This field may be useful to record information such as a library name and a call number. This may be printed by a special bibliography style if desired. Not used by the standard bibliography styles."@),
        54 => ("location"@, "The place(s) of publication, i. e., the location of the `publisher` or `institution`, depending on the entry type. Traditional BibTeX uses the field name `address`, which is supported as an alias. With `@patent` entries, this list indicates the scope of a patent."@),
        55 => ("mainsubtitle"@, "The subtitle related to the `maintitle`. See also `subtitle`."@),
        56 => ("maintitle"@, "The main title of a multi-volume book, such as *Collected Works*. If the `title` or `booktitle` field indicates the title of a single volume which is part of multi-volume book, the title of the complete work is given in this field."@),
        57 => ("maintitleaddon"@, "An annex to the `maintitle`, to be printed in a different font."@),
        58 => ("month"@, "The publication month. This must be an integer, not an ordinal or a string. Don’t say `month={January}` but `month={1}`. The bibliography style converts this to a language dependent string or ordinal where required. This field is a literal field only when given explicitly in the data (for plain BibTeX compatibility for example). It is however better to use the `date` field as this supports many more features."@),
        59 => ("nameaddon"@, "An addon to be printed immediately after the author name in the bibliography. Not used by the standard bibliography styles. This field may be useful to add an alias or pen name (or give the real name if the pseudonym is commonly used to refer to that author)."@),
        60 => ("note"@, "Miscellaneous bibliographic data which does not fit into any other field. The note field may be used to record bibliographic data in a free format. Publication facts such as \"Reprint of the edition London 1831\" are typical candidates for the note field. See also `addendum`."@),
        61 => ("number"@, "The number of a journal or the volume/number of a book in a `series`. See also `issue`. With `@patent` entries, this is the number or record token of a patent or patent request. Normally this field will be an integer or an integer range, but in certain cases it may also contain \"S1\", \"Suppl. 1\", in these cases the output should be scrutinised carefully."@),
        62 => ("organization"@, "The organization(s) that published a `@manual` or an `@online` resource, or sponsored a conference."@),
        63 => ("origdate"@, "If the work is a translation, a reprint, or something similar, the publication date of the original edition. Not used by the standard bibliography styles. See also `date`."@),
        64 => ("origlanguage"@, "If the work is a translation, the language(s) of the original work. See also `language`."@),
        65 => ("origlocation"@, "If the work is a translation, a reprint, or something similar, the location of the original edition. Not used by the standard bibliography styles. See also `location`."@),
        66 => ("origpublisher"@, "If the work is a translation, a reprint, or something similar, the publisher of the original edition. Not used by the standard bibliography styles. See also `publisher`."@),
        67 => ("origtitle"@, "If the work is a translation, the `title` of the original work. Not used by the standard bibliography styles. See also `title`."@),
        68 => ("pages"@, "One or more page numbers or page ranges. If the work is published as part of another one, such as an article in a journal or a collection, this field holds the relevant page range in that other work. It may also be used to limit the reference to a specific part of a work (a chapter in a book, for example)."@),
        69 => ("pagetotal"@, "The total number of pages of the work."@),
        70 => ("pagination"@, "The pagination of the work. The value of this field will affect the formatting the *postnote* argument to a citation command. The key should be given in the singular form. Possible keys are `page`, `column`, `line`, `verse`, `section`, and `paragraph`. See also `bookpagination`."@),
        71 => ("part"@, "The number of a partial volume. This field applies to books only, not to journals. It may be used when a logical volume consists of two or more physical ones. In this case the number of the logical volume goes in the `volume` field and the number of the part of that volume in the `part` field. See also `volume`."@),
        72 => ("publisher"@, "The name(s) of the publisher(s)."@),
        73 => ("pubstate"@, "The publication state of the work, e. g., 'in press'."@),
        74 => ("reprinttitle"@, "The title of a reprint of the work. Not used by the standard styles."@),
        75 => ("series"@, "The name of a publication series, such as \"Studies in …\", or the number of a journal series. Books in a publication series are usually numbered. The number or volume of a book in a series is given in the `number` field. Note that the `@article` entry type makes use of the `series` field as well, but handles it in a special way."@),
        76 => ("shortauthor"@, "The author(s) of the work, given in an abbreviated form. This field is mainly intended for abbreviated forms of corporate authors."@),
        77 => ("shorteditor"@, "The editor(s) of the work, given in an abbreviated form. This field is mainly intended for abbreviated forms of corporate editors."@),
        78 => ("shorthand"@, "A special designation to be used by the citation style instead of the usual label. If defined, it overrides the default label. See also `label`."@),
        79 => ("shorthandintro"@, "The verbose citation styles which comes with this package use a phrase like \"henceforth cited as [shorthand]\" to introduce shorthands on the first citation. If the `shorthandintro` field is defined, it overrides the standard phrase. Note that the alternative phrase must include the shorthand."@),
        80 => ("shortjournal"@, "A short version or an acronym of the `journaltitle`. Not used by the standard bibliography styles."@),
        81 => ("shortseries"@, "A short version or an acronym of the `series` field. Not used by the standard bibliography styles."@),
        82 => ("shorttitle"@, "The title in an abridged form. This field is usually not included in the bibliography. It is intended for citations in author-title format. If present, the author-title citation styles use this field instead of `title`."@),
        83 => ("subtitle"@, "The subtitle of the work."@),
        84 => ("title"@, "The title of the work."@),
        85 => ("titleaddon"@, "An annex to the `title`, to be printed in a different font."@),
        86 => ("translator"@, "The translator(s) of the `title` or `booktitle`, depending on the entry type. If the translator is identical to the `editor`, the standard styles will automatically concatenate these fields in the bibliography."@),
        87 => ("type"@, "The type of a `manual`, `patent`, `report`, or `thesis`."@),
        88 => ("url"@, "The URL of an online publication. If it is not URL-escaped (no ‘%’ chars) it will be URI-escaped according to RFC 3987, that is, even Unicode chars will be correctly escaped."@),
        89 => ("urldate"@, "The access date of the address specified in the `url` field."@),
        90 => ("venue"@, "The location of a conference, a symposium, or some other event in `@proceedings` and `@inproceedings` entries. Note that the `location` list holds the place of publication. It therefore corresponds to the `publisher` and `institution` lists. The location of the event is given in the `venue` field. See also `eventdate` and `eventtitle`."@),
        91 => ("version"@, "The revision number of a piece of software, a manual, etc."@),
        92 => ("volume"@, "The volume of a multi-volume book or a periodical. It is expected to be an integer, not necessarily in arabic numerals since `biber` will automatically from roman numerals or arabic letter to integers internally for sorting purposes. See also `part`. See the `noroman` option which can be used to suppress roman numeral parsing. This can help in cases where there is an ambiguity between parsing as roman numerals or alphanumeric (e.g. ‘C’)."@),
        93 => ("volumes"@, "The total number of volumes of a multi-volume work. Depending on the entry type, this field refers to `title` or `maintitle`. It is expected to be an integer, not necessarily in arabic numerals since `biber` will automatically from roman numerals or arabic letter to integers internally for sorting purposes. See the `noroman` option which can be used to suppress roman numeral parsing. This can help in cases where there is an ambiguity between parsing as roman numerals or alphanumeric (e.g. ‘C’)."@),
        94 => ("year"@, "The year of publication. This field is a literal field only when given explicitly in the data (for plain BibTeX compatibility for example). It is however better to use the `date` field as this is compatible with plain years too and supports many more features."@),
        95 => ("crossref"@, "This field holds an entry key for the cross-referencing feature. Child entries with a `crossref` field inherit data from the parent entry specified in the `crossref` field. If the number of child entries referencing a specific parent entry hits a certain threshold, the parent entry is automatically added to the bibliography even if it has not been cited explicitly. The threshold is settable with the `mincrossrefs` package option. Style authors should note that whether or not the `crossref` fields of the child entries are defined on the `biblatex` level depends on the availability of the parent entry. If the parent entry is available, the `crossref` fields of the child entries will be defined. If not, the child entries still inherit the data from the parent entry but their `crossref` fields will be undefined. Whether the parent entry is added to the bibliography implicitly because of the threshold or explicitly because it has been cited does not matter. See also the `xref` field."@),
        96 => ("entryset"@, "This field is specific to entry sets. This field is consumed by the backend processing and does not appear in the `.bbl`."@),
        97 => ("execute"@, "A special field which holds arbitrary TeX code to be executed whenever the data of the respective entry is accessed. This may be useful to handle special cases. Conceptually, this field is comparable to the hooks `AtEveryBibitem`, `AtEveryLositem`, and `AtEveryCitekey`, except that it is definable on a per-entry basis in the `bib` file. Any code in this field is executed automatically immediately after these hooks."@),
        98 => ("gender"@, "The gender of the author or the gender of the editor, if there is no author. The following identifiers are supported: `sf` (feminine singular, a single female name), `sm` (masculine singular, a single male name), `sn` (neuter singular, a single neuter name), `pf` (feminine plural, a list of female names), `pm` (masculine plural, a list of male names), `pn` (neuter plural, a list of neuter names),`pp` (plural, a mixed gender list of names). This information is only required by special bibliography and citation styles and only in certain languages. For example, a citation style may replace recurrent author names with a term such as 'idem'. If the Latin word is used, as is custom in English and French, there is no need to specify the gender. In German publications, however, such key terms are usually given in German and in this case they are gender-sensitive."@),
        99 => ("langid"@, "The language id of the bibliography entry. The alias `hyphenation` is provided for backwards compatibility. The identifier must be a language name known to the `babel/polyglossia` packages. This information may be used to switch hyphenation patterns and localise strings in the bibliography. Note that the language names are case sensitive. The languages currently supported by this package are given in table 2. Note that `babel` treats the identifier `english` as an alias for `british` or `american`, depending on the `babel` version. The `biblatex` package always treats it as an alias for `american`. It is preferable to use the language identifiers `american` and `british` (`babel`) or a language specific option to specify a language variant (`polyglossia`, using the `langidopts` field) to avoid any possible confusion."@),
        100 => ("langidopts"@, "For `polyglossia` users, allows per-entry language specific options. The literal value of this field is passed to `polyglossia`’s language switching facility when using the package option `autolang=langname`."@),
        101 => ("ids"@, "Citation key aliases for the main citation key. An entry may be cited by any of its aliases and `biblatex` will treat the citation as if it had used the primary citation key. This is to aid users who change their citation keys but have legacy documents which use older keys for the same entry. This field is consumed by the backend processing and does not appear in the `.bbl`."@),
        102 => ("indexsorttitle"@, "The title used when sorting the index. In contrast to indextitle, this field is used for sorting only. The printed title in the index is the indextitle or the title field. This field may be useful if the title contains special characters or commands which interfere with the sorting of the index. Style authors should note that biblatex automatically copies the value of either the indextitle or the title field to indexsorttitle if the latter field is undefined."@),
        103 => ("keywords"@, "A separated list of keywords. These keywords are intended for the bibliography filters, they are usually not printed. Note that with the default separator (comma), spaces around the separator are ignored."@),
        104 => ("options"@, "A separated list of entry options in *key*=*value* notation. This field is used to set options on a per-entry basis. Note that citation and bibliography styles may define additional entry options."@),
        105 => ("presort"@, "A special field used to modify the sorting order of the bibliography. This field is the first item the sorting routine considers when sorting the bibliography, hence it may be used to arrange the entries in groups. This may be useful when creating subdivided bibliographies with the bibliography filters. This field is consumed by the backend processing and does not appear in the `.bbl`."@),
        106 => ("related"@, "Citation keys of other entries which have a relationship to this entry. The relationship is specified by the `relatedtype` field."@),
        107 => ("relatedoptions"@, "Per-type options to set for a related entry. Note that this does not set the options on the related entry itself, only the `dataonly` clone which is used as a datasource for the parent entry."@),
        108 => ("relatedtype"@, "An identifier which specified the type of relationship for the keys listed in the `related` field. The identifier is a localised bibliography string printed before the data from the related entry list. It is also used to identify type-specific formatting directives and bibliography macros for the related entries."@),
        109 => ("relatedstring"@, "A field used to override the bibliography string specified by `relatedtype`."@),
        110 => ("sortkey"@, "A field used to modify the sorting order of the bibliography. Think of this field as the master sort key. If present, `biblatex` uses this field during sorting and ignores everything else, except for the presort field. This field is consumed by the backend processing and does not appear in the `.bbl`."@),
        111 => ("sortname"@, "A name or a list of names used to modify the sorting order of the bibliography. If present, this list is used instead of `author` or `editor` when sorting the bibliography. This field is consumed by the backend processing and does not appear in the `.bbl`."@),
        112 => ("sortshorthand"@, "Similar to sortkey but used in the list of shorthands. If present, biblatex uses this field instead of shorthand when sorting the list of shorthands. This is useful if the shorthand field holds shorthands with formatting commands such as `emph` or `\textbf`. This field is consumed by the backend processing and does not appear in the `.bbl`."@),
        113 => ("sorttitle"@, "A field used to modify the sorting order of the bibliography. If present, this field is used instead of the title field when sorting the bibliography. The sorttitle field may come in handy if you have an entry with a title like \"An Introduction to…\" and want that alphabetized under ‘I’ rather than ‘A’. In this case, you could put \"Introduction to…\" in the sorttitle field. This field is consumed by the backend processing and does not appear in the `.bbl`."@),
        114 => ("sortyear"@, "A field used to modify the sorting order of the bibliography. In the default sorting templates, if this field is present, it is used instead of the year field when sorting the bibliography. This field is consumed by the backend processing and does not appear in the `.bbl`."@),
        115 => ("xdata"@, "This field inherits data from one or more `@xdata` entries. Conceptually, the `xdata` field is related to crossref and xref: `crossref` establishes a logical parent/child relation and inherits data; `xref` establishes as logical parent/child relation without inheriting data; `xdata` inherits data without establishing a relation. The value of the `xdata` may be a single entry key or a separated list of keys. This field is consumed by the backend processing and does not appear in the `.bbl`."@),
        116 => ("xref"@, "This field is an alternative cross-referencing mechanism. It differs from `crossref` in that the child entry will not inherit any data from the parent entry specified in the `xref` field. If the number of child entries referencing a specific parent entry hits a certain threshold, the parent entry is automatically added to the bibliography even if it has not been cited explicitly. The threshold is settable with the `minxrefs` package option. Style authors should note that whether or not the `xref` fields of the child entries are defined on the `biblatex` level depends on the availability of the parent entry. If the parent entry is available, the `xref` fields of the child entries will be defined. If not, their `xref` fields will be undefined. Whether the parent entry is added to the bibliography implicitly because of the threshold or explicitly because it has been cited does not matter. See also the `crossref` field."@),
        117 => ("namea"@, "Custom lists for special bibliography styles. Not used by the standard bibliography styles."@),
        118 => ("nameb"@, "Custom lists for special bibliography styles. Not used by the standard bibliography styles."@),
        119 => ("namec"@, "Custom lists for special bibliography styles. Not used by the standard bibliography styles."@),
        120 => ("nameatype"@, "Similar to `authortype` and `editortype` but referring to the fields `name[a--c]`. Not used by the standard bibliography styles."@),
        121 => ("namebtype"@, "Similar to `authortype` and `editortype` but referring to the fields `name[a--c]`. Not used by the standard bibliography styles."@),
        122 => ("namectype"@, "Similar to `authortype` and `editortype` but referring to the fields `name[a--c]`. Not used by the standard bibliography styles."@),
        123 => ("lista"@, "Custom lists for special bibliography styles. Not used by the standard bibliography styles."@),
        124 => ("listb"@, "Custom lists for special bibliography styles. Not used by the standard bibliography styles."@),
        125 => ("listc"@, "Custom lists for special bibliography styles. Not used by the standard bibliography styles."@),
        126 => ("listd"@, "Custom lists for special bibliography styles. Not used by the standard bibliography styles."@),
        127 => ("liste"@, "Custom lists for special bibliography styles. Not used by the standard bibliography styles."@),
        128 => ("listf"@, "Custom lists for special bibliography styles. Not used by the standard bibliography styles."@),
        129 => ("usera"@, "Custom fields for special bibliography styles. Not used by the standard bibliography styles."@),
        130 => ("userb"@, "Custom fields for special bibliography styles. Not used by the standard bibliography styles."@),
        131 => ("userc"@, "Custom fields for special bibliography styles. Not used by the standard bibliography styles."@),
        132 => ("userd"@, "Custom fields for special bibliography styles. Not used by the standard bibliography styles."@),
        133 => ("usere"@, "Custom fields for special bibliography styles. Not used by the standard bibliography styles."@),
        134 => ("userf"@, "Custom fields for special bibliography styles. Not used by the standard bibliography styles."@),
        135 => ("verba"@, "Similar to the custom fields except that these are verbatim fields. Not used by the standard bibliography styles."@),
        136 => ("verbb"@, "Similar to the custom fields except that these are verbatim fields. Not used by the standard bibliography styles."@),
        137 => ("verbc"@, "Similar to the custom fields except that these are verbatim fields. Not used by the standard bibliography styles."@),
        138 => ("address"@, "An alias for `location`, provided for BibTeX compatibility. Traditional BibTeX uses the slightly misleading field name `address` for the place of publication, i. e., the location of the publisher, while `biblatex` uses the generic field name `location`."@),
        139 => ("annote"@, "An alias for `annotation`, provided for jurabib compatibility."@),
        140 => ("archiveprefix"@, "An alias for `eprinttype`, provided for arXiv compatibility."@),
        141 => ("journal"@, "An alias for `journaltitle`, provided for BibTeX compatibility."@),
        142 => ("key"@, "An alias for `sortkey`, provided for BibTeX compatibility."@),
        143 => ("pdf"@, "An alias for `file`, provided for JabRef compatibility."@),
        144 => ("primaryclass"@, "An alias for `eprintclass`, provided for arXiv compatibility."@),
        145 => ("school"@, "An alias for `institution`, provided for BibTeX compatibility. The `institution` field is used by traditional BibTeX for technical reports whereas the `school` field holds the institution associated with theses. The `biblatex` package employs the generic field name `institution` in both cases."@),
        _ => (Seq::empty(), Seq::empty()),
    }
}

/// The known bibliography fields, as pairs of name and documentation.
pub open spec fn bibtex_field_table() -> Seq<(Seq<char>, Seq<char>)> {
    Seq::new(BIBTEX_FIELD_COUNT as nat, |i: int| bibtex_field_at(i as usize))
}

/// The documentation of the first field of `table` named `name`.
pub open spec fn documentation_in(table: Seq<(Seq<char>, Seq<char>)>, name: Seq<char>) -> Option<Seq<char>>
    decreases table.len(),
{
    if table.len() == 0 {
        None
    } else if table[0].0 == name {
        Some(table[0].1)
    } else {
        documentation_in(table.drop_first(), name)
    }
}

pub open spec fn field_view(f: BibtexField) -> (Seq<char>, Seq<char>) {
    (f.name@, f.documentation@)
}

/// The known field at position `i`.
pub fn bibtex_field(i: usize) -> (r: BibtexField)
    requires
        i < BIBTEX_FIELD_COUNT,
    ensures
        field_view(r) == bibtex_field_at(i),
{
    match i {
        0 => BibtexField { name: "abstract", documentation: "This field is intended for recording abstracts in a bib file, to be printed by a special bibliography style. It is not used by all standard bibliography styles." },
        1 => BibtexField { name: "addendum", documentation: "Miscellaneous bibliographic data to be printed at the end of the entry. This is similar to the `note` field except that it is printed at the end of the bibliography entry." },
        2 => BibtexField { name: "afterword", documentation: "The author(s) of an afterword to the work. If the author of the afterword is identical to the `editor` and/or `translator`, the standard styles will automatically concatenate these fields in the bibliography. See also `introduction` and `foreword`." },
        3 => BibtexField { name: "annotation", documentation: "This field may be useful when implementing a style for annotated bibliographies. It is not used by all standard bibliography styles. Note that this field is completely unrelated to `annotator`. The `annotator` is the author of annotations which are part of the work cited." },
        4 => BibtexField { name: "annotator", documentation: "The author(s) of annotations to the work. If the annotator is identical to the `editor` and/or `translator`, the standard styles will automatically concatenate these fields in the bibliography. See also `commentator`." },
        5 => BibtexField { name: "author", documentation: "The author(s) of the `title`." },
        6 => BibtexField { name: "authortype", documentation: "The type of author. This field will affect the string (if any) used to introduce the author. Not used by the standard bibliography styles." },
        7 => BibtexField { name: "bookauthor", documentation: "The author(s) of the `booktitle`." },
        8 => BibtexField { name: "bookpagination", documentation: "If the work is published as part of another one, this is the pagination scheme of the enclosing work, i. e., `bookpagination` relates to `pagination` like `booktitle` to `title`. The value of this field will affect the formatting of the `pages` and `pagetotal` fields. The key should be given in the singular form. Possible keys are `page`, `column`, `line`, `verse`, `section`, and `paragraph`. See also `pagination`." },
        9 => BibtexField { name: "booksubtitle", documentation: "The subtitle related to the `booktitle`. If the subtitle field refers to a work which is part of a larger publication, a possible subtitle of the main work is given in this field. See also `subtitle`." },
        10 => BibtexField { name: "booktitle", documentation: "If the `title` field indicates the title of a work which is part of a larger publication, the title of the main work is given in this field. See also `title`." },
        11 => BibtexField { name: "booktitleaddon", documentation: "An annex to the `booktitle`, to be printed in a different font." },
        12 => BibtexField { name: "chapter", documentation: "A chapter or section or any other unit of a work." },
        13 => BibtexField { name: "commentator", documentation: "The author(s) of a commentary to the work. Note that this field is intended for commented editions which have a commentator in addition to the author. If the work is a stand-alone commentary, the commentator should be given in the `author` field. If the commentator is identical to the `editor` and/or `translator`, the standard styles will automatically concatenate these fields in the bibliography. See also `annotator`." },
        14 => BibtexField { name: "date", documentation: "The publication date. See also `month` and `year`." },
        15 => BibtexField { name: "doi", documentation: "The Digital Object Identifier of the work." },
        16 => BibtexField { name: "edition", documentation: "The edition of a printed publication. This must be an integer, not an ordinal. Don’t say `edition={First}` or `edition={1st}` but `edition={1}`. The bibliography style converts this to a language dependent ordinal. It is also possible to give the edition as a literal string, for example \"Third, revised and expanded edition\"." },
        17 => BibtexField { name: "editor", documentation: "The editor(s) of the `title`, `booktitle`, or `maintitle`, depending on the entry type. Use the `editortype` field to specify the role if it is different from `editor`." },
        18 => BibtexField { name: "editora", documentation: "A secondary editor performing a different editorial role, such as compiling, redacting, etc. Use the `editoratype` field to specify the role." },
        19 => BibtexField { name: "editorb", documentation: "Another secondary editor performing a different role. Use the `editorbtype` field to specify the role." },
        20 => BibtexField { name: "editorc", documentation: "Another secondary editor performing a different role. Use the `editorctype` field to specify the role." },
        21 => BibtexField { name: "editortype", documentation: "The type of editorial role performed by the `editor`. Roles supported by default are `editor`, `compiler`, `founder`, `continuator`, `redactor`, `reviser`, `collaborator`, `organizer`. The role `editor` is the default. In this case, the field is omissible." },
        22 => BibtexField { name: "editoratype", documentation: "Similar to `editortype` but referring to the `editora` field." },
        23 => BibtexField { name: "editorbtype", documentation: "Similar to `editortype` but referring to the `editorb` field." },
        24 => BibtexField { name: "editorctype", documentation: "Similar to `editortype` but referring to the `editorc` field." },
        25 => BibtexField { name: "eid", documentation: "The electronic identifier of an `@article`." },
        26 => BibtexField { name: "entrysubtype", documentation: "This field, which is not used by the standard styles, may be used to specify a subtype of an entry type. This may be useful for bibliography styles which support a finergrained set of entry types." },
        27 => BibtexField { name: "eprint", documentation: "The electronic identifier of an online publication. This is roughly comparable to a doi but specific to a certain archive, repository, service, or system. See also `eprinttype` and `eprintclass`." },
        28 => BibtexField { name: "eprintclass", documentation: "Additional information related to the resource indicated by the `eprinttype` field. This could be a section of an archive, a path indicating a service, a classification of some sort, etc. See also`eprint` and `eprinttype`." },
        29 => BibtexField { name: "eprinttype", documentation: "The type of `eprint` identifier, e. g., the name of the archive, repository, service, or system the `eprint` field refers to. See also `eprint` and `eprintclass`." },
        30 => BibtexField { name: "eventdate", documentation: "The date of a conference, a symposium, or some other event in `@proceedings` and `@inproceedings` entries. See also `eventtitle` and `venue`." },
        31 => BibtexField { name: "eventtitle", documentation: "The title of a conference, a symposium, or some other event in `@proceedings` and `@inproceedings` entries. Note that this field holds the plain title of the event. Things like \"Proceedings of the Fifth XYZ Conference\" go into the `titleaddon` or `booktitleaddon` field, respectively. See also `eventdate` and `venue`." },
        32 => BibtexField { name: "eventtitleaddon", documentation: "An annex to the `eventtitle` field. Can be used for known event acronyms, for example." },
        33 => BibtexField { name: "file", documentation: "A local link to a PDF or other version of the work. Not used by the standard bibliography styles." },
        34 => BibtexField { name: "foreword", documentation: "The author(s) of a foreword to the work. If the author of the foreword is identical to the `editor` and/or `translator`, the standard styles will automatically concatenate these fields in the bibliography. See also `introduction` and `afterword`." },
        35 => BibtexField { name: "holder", documentation: "The holder(s) of a `@patent`, if different from the `author`. Note that corporate holders need to be wrapped in an additional set of braces." },
        36 => BibtexField { name: "howpublished", documentation: "A publication notice for unusual publications which do not fit into any of the common categories." },
        37 => BibtexField { name: "indextitle", documentation: "A title to use for indexing instead of the regular `title` field. This field may be useful if you have an entry with a title like \"An Introduction to …\" and want that indexed as \"Introduction to …, An\". Style authors should note that `biblatex` automatically copies the value of the `title` field to `indextitle` if the latter field is undefined." },
        38 => BibtexField { name: "institution", documentation: "The name of a university or some other institution, depending on the entry type. Traditional BibTeX uses the field name `school` for theses, which is supported as an alias." },
        39 => BibtexField { name: "introduction", documentation: "The author(s) of an introduction to the work. If the author of the introduction is identical to the `editor` and/or `translator`, the standard styles will automatically concatenate these fields in the bibliography. See also `foreword` and `afterword`." },
        40 => BibtexField { name: "isan", documentation: "The International Standard Audiovisual Number of an audiovisual work. Not used by the standard bibliography styles." },
        41 => BibtexField { name: "isbn", documentation: "The International Standard Book Number of a book." },
        42 => BibtexField { name: "ismn", documentation: "The International Standard Music Number for printed music such as musical scores. Not used by the standard bibliography styles." },
        43 => BibtexField { name: "isrn", documentation: "The International Standard Technical Report Number of a technical report." },
        44 => BibtexField { name: "issn", documentation: "The International Standard Serial Number of a periodical." },
        45 => BibtexField { name: "issue", documentation: "The issue of a journal. This field is intended for journals whose individual issues are identified by a designation such as ‘Spring’ or ‘Summer’ rather than the month or a number. The placement of `issue` is similar to `month` and `number`, integer ranges and short designators are better written to the number field. See also `month` and `number`." },
        46 => BibtexField { name: "issuesubtitle", documentation: "The subtitle of a specific issue of a journal or other periodical." },
        47 => BibtexField { name: "issuetitle", documentation: "The title of a specific issue of a journal or other periodical." },
        48 => BibtexField { name: "iswc", documentation: "The International Standard Work Code of a musical work. Not used by the standard bibliography styles." },
        49 => BibtexField { name: "journalsubtitle", documentation: "The subtitle of a journal, a newspaper, or some other periodical." },
        50 => BibtexField { name: "journaltitle", documentation: "The name of a journal, a newspaper, or some other periodical." },
        51 => BibtexField { name: "label", documentation: "A designation to be used by the citation style as a substitute for the regular label if any data required to generate the regular label is missing. For example, when an author-year citation style is generating a citation for an entry which is missing the author or the year, it may fall back to `label`. Note that, in contrast to `shorthand`, `label` is only used as a fallback. See also `shorthand`." },
        52 => BibtexField { name: "language", documentation: "The language(s) of the work. Languages may be specified literally or as localisation keys. If localisation keys are used, the prefix lang is omissible. See also `origlanguage`." },
        53 => BibtexField { name: "library", documentation: "This field may be useful to record information such as a library name and a call number. This may be printed by a special bibliography style if desired. Not used by the standard bibliography styles." },
        54 => BibtexField { name: "location", documentation: "The place(s) of publication, i. e., the location of the `publisher` or `institution`, depending on the entry type. Traditional BibTeX uses the field name `address`, which is supported as an alias. With `@patent` entries, this list indicates the scope of a patent." },
        55 => BibtexField { name: "mainsubtitle", documentation: "The subtitle related to the `maintitle`. See also `subtitle`." },
        56 => BibtexField { name: "maintitle", documentation: "The main title of a multi-volume book, such as *Collected Works*. If the `title` or `booktitle` field indicates the title of a single volume which is part of multi-volume book, the title of the complete work is given in this field." },
        57 => BibtexField { name: "maintitleaddon", documentation: "An annex to the `maintitle`, to be printed in a different font." },
        58 => BibtexField { name: "month", documentation: "The publication month. This must be an integer, not an ordinal or a string. Don’t say `month={January}` but `month={1}`. The bibliography style converts this to a language dependent string or ordinal where required. This field is a literal field only when given explicitly in the data (for plain BibTeX compatibility for example). It is however better to use the `date` field as this supports many more features." },
        59 => BibtexField { name: "nameaddon", documentation: "An addon to be printed immediately after the author name in the bibliography. Not used by the standard bibliography styles. This field may be useful to add an alias or pen name (or give the real name if the pseudonym is commonly used to refer to that author)." },
        60 => BibtexField { name: "note", documentation: "Miscellaneous bibliographic data which does not fit into any other field. The note field may be used to record bibliographic data in a free format. Publication facts such as \"Reprint of the edition London 1831\" are typical candidates for the note field. See also `addendum`." },
        61 => BibtexField { name: "number", documentation: "The number of a journal or the volume/number of a book in a `series`. See also `issue`. With `@patent` entries, this is the number or record token of a patent or patent request. Normally this field will be an integer or an integer range, but in certain cases it may also contain \"S1\", \"Suppl. 1\", in these cases the output should be scrutinised carefully." },
        62 => BibtexField { name: "organization", documentation: "The organization(s) that published a `@manual` or an `@online` resource, or sponsored a conference." },
        63 => BibtexField { name: "origdate", documentation: "If the work is a translation, a reprint, or something similar, the publication date of the original edition. Not used by the standard bibliography styles. See also `date`." },
        64 => BibtexField { name: "origlanguage", documentation: "If the work is a translation, the language(s) of the original work. See also `language`." },
        65 => BibtexField { name: "origlocation", documentation: "If the work is a translation, a reprint, or something similar, the location of the original edition. Not used by the standard bibliography styles. See also `location`." },
        66 => BibtexField { name: "origpublisher", documentation: "If the work is a translation, a reprint, or something similar, the publisher of the original edition. Not used by the standard bibliography styles. See also `publisher`." },
        67 => BibtexField { name: "origtitle", documentation: "If the work is a translation, the `title` of the original work. Not used by the standard bibliography styles. See also `title`." },
        68 => BibtexField { name: "pages", documentation: "One or more page numbers or page ranges. If the work is published as part of another one, such as an article in a journal or a collection, this field holds the relevant page range in that other work. It may also be used to limit the reference to a specific part of a work (a chapter in a book, for example)." },
        69 => BibtexField { name: "pagetotal", documentation: "The total number of pages of the work." },
        70 => BibtexField { name: "pagination", documentation: "The pagination of the work. The value of this field will affect the formatting the *postnote* argument to a citation command. The key should be given in the singular form. Possible keys are `page`, `column`, `line`, `verse`, `section`, and `paragraph`. See also `bookpagination`." },
        71 => BibtexField { name: "part", documentation: "The number of a partial volume. This field applies to books only, not to journals. It may be used when a logical volume consists of two or more physical ones. In this case the number of the logical volume goes in the `volume` field and the number of the part of that volume in the `part` field. See also `volume`." },
        72 => BibtexField { name: "publisher", documentation: "The name(s) of the publisher(s)." },
        73 => BibtexField { name: "pubstate", documentation: "The publication state of the work, e. g., 'in press'." },
        74 => BibtexField { name: "reprinttitle", documentation: "The title of a reprint of the work. Not used by the standard styles." },
        75 => BibtexField { name: "series", documentation: "The name of a publication series, such as \"Studies in …\", or the number of a journal series. Books in a publication series are usually numbered. The number or volume of a book in a series is given in the `number` field. Note that the `@article` entry type makes use of the `series` field as well, but handles it in a special way." },
        76 => BibtexField { name: "shortauthor", documentation: "The author(s) of the work, given in an abbreviated form. This field is mainly intended for abbreviated forms of corporate authors." },
        77 => BibtexField { name: "shorteditor", documentation: "The editor(s) of the work, given in an abbreviated form. This field is mainly intended for abbreviated forms of corporate editors." },
        78 => BibtexField { name: "shorthand", documentation: "A special designation to be used by the citation style instead of the usual label. If defined, it overrides the default label. See also `label`." },
        79 => BibtexField { name: "shorthandintro", documentation: "The verbose citation styles which comes with this package use a phrase like \"henceforth cited as [shorthand]\" to introduce shorthands on the first citation. If the `shorthandintro` field is defined, it overrides the standard phrase. Note that the alternative phrase must include the shorthand." },
        80 => BibtexField { name: "shortjournal", documentation: "A short version or an acronym of the `journaltitle`. Not used by the standard bibliography styles." },
        81 => BibtexField { name: "shortseries", documentation: "A short version or an acronym of the `series` field. Not used by the standard bibliography styles." },
        82 => BibtexField { name: "shorttitle", documentation: "The title in an abridged form. This field is usually not included in the bibliography. It is intended for citations in author-title format. If present, the author-title citation styles use this field instead of `title`." },
        83 => BibtexField { name: "subtitle", documentation: "The subtitle of the work." },
        84 => BibtexField { name: "title", documentation: "The title of the work." },
        85 => BibtexField { name: "titleaddon", documentation: "An annex to the `title`, to be printed in a different font." },
        86 => BibtexField { name: "translator", documentation: "The translator(s) of the `title` or `booktitle`, depending on the entry type. If the translator is identical to the `editor`, the standard styles will automatically concatenate these fields in the bibliography." },
        87 => BibtexField { name: "type", documentation: "The type of a `manual`, `patent`, `report`, or `thesis`." },
        88 => BibtexField { name: "url", documentation: "The URL of an online publication. If it is not URL-escaped (no ‘%’ chars) it will be URI-escaped according to RFC 3987, that is, even Unicode chars will be correctly escaped." },
        89 => BibtexField { name: "urldate", documentation: "The access date of the address specified in the `url` field." },
        90 => BibtexField { name: "venue", documentation: "The location of a conference, a symposium, or some other event in `@proceedings` and `@inproceedings` entries. Note that the `location` list holds the place of publication. It therefore corresponds to the `publisher` and `institution` lists. The location of the event is given in the `venue` field. See also `eventdate` and `eventtitle`." },
        91 => BibtexField { name: "version", documentation: "The revision number of a piece of software, a manual, etc." },
        92 => BibtexField { name: "volume", documentation: "The volume of a multi-volume book or a periodical. It is expected to be an integer, not necessarily in arabic numerals since `biber` will automatically from roman numerals or arabic letter to integers internally for sorting purposes. See also `part`. See the `noroman` option which can be used to suppress roman numeral parsing. This can help in cases where there is an ambiguity between parsing as roman numerals or alphanumeric (e.g. ‘C’)." },
        93 => BibtexField { name: "volumes", documentation: "The total number of volumes of a multi-volume work. Depending on the entry type, this field refers to `title` or `maintitle`. It is expected to be an integer, not necessarily in arabic numerals since `biber` will automatically from roman numerals or arabic letter to integers internally for sorting purposes. See the `noroman` option which can be used to suppress roman numeral parsing. This can help in cases where there is an ambiguity between parsing as roman numerals or alphanumeric (e.g. ‘C’)." },
        94 => BibtexField { name: "year", documentation: "The year of publication. This field is a literal field only when given explicitly in the data (for plain BibTeX compatibility for example). It is however better to use the `date` field as this is compatible with plain years too and supports many more features." },
        95 => BibtexField { name: "crossref", documentation: "This field holds an entry key for the cross-referencing feature. Child entries with a `crossref` field inherit data from the parent entry specified in the `crossref` field. If the number of child entries referencing a specific parent entry hits a certain threshold, the parent entry is automatically added to the bibliography even if it has not been cited explicitly. The threshold is settable with the `mincrossrefs` package option. Style authors should note that whether or not the `crossref` fields of the child entries are defined on the `biblatex` level depends on the availability of the parent entry. If the parent entry is available, the `crossref` fields of the child entries will be defined. If not, the child entries still inherit the data from the parent entry but their `crossref` fields will be undefined. Whether the parent entry is added to the bibliography implicitly because of the threshold or explicitly because it has been cited does not matter. See also the `xref` field." },
        96 => BibtexField { name: "entryset", documentation: "This field is specific to entry sets. This field is consumed by the backend processing and does not appear in the `.bbl`." },
        97 => BibtexField { name: "execute", documentation: "A special field which holds arbitrary TeX code to be executed whenever the data of the respective entry is accessed. This may be useful to handle special cases. Conceptually, this field is comparable to the hooks `AtEveryBibitem`, `AtEveryLositem`, and `AtEveryCitekey`, except that it is definable on a per-entry basis in the `bib` file. Any code in this field is executed automatically immediately after these hooks." },
        98 => BibtexField { name: "gender", documentation: "The gender of the author or the gender of the editor, if there is no author. The following identifiers are supported: `sf` (feminine singular, a single female name), `sm` (masculine singular, a single male name), `sn` (neuter singular, a single neuter name), `pf` (feminine plural, a list of female names), `pm` (masculine plural, a list of male names), `pn` (neuter plural, a list of neuter names),`pp` (plural, a mixed gender list of names). This information is only required by special bibliography and citation styles and only in certain languages. For example, a citation style may replace recurrent author names with a term such as 'idem'. If the Latin word is used, as is custom in English and French, there is no need to specify the gender. In German publications, however, such key terms are usually given in German and in this case they are gender-sensitive." },
        99 => BibtexField { name: "langid", documentation: "The language id of the bibliography entry. The alias `hyphenation` is provided for backwards compatibility. The identifier must be a language name known to the `babel/polyglossia` packages. This information may be used to switch hyphenation patterns and localise strings in the bibliography. Note that the language names are case sensitive. The languages currently supported by this package are given in table 2. Note that `babel` treats the identifier `english` as an alias for `british` or `american`, depending on the `babel` version. The `biblatex` package always treats it as an alias for `american`. It is preferable to use the language identifiers `american` and `british` (`babel`) or a language specific option to specify a language variant (`polyglossia`, using the `langidopts` field) to avoid any possible confusion." },
        100 => BibtexField { name: "langidopts", documentation: "For `polyglossia` users, allows per-entry language specific options. The literal value of this field is passed to `polyglossia`’s language switching facility when using the package option `autolang=langname`." },
        101 => BibtexField { name: "ids", documentation: "Citation key aliases for the main citation key. An entry may be cited by any of its aliases and `biblatex` will treat the citation as if it had used the primary citation key. This is to aid users who change their citation keys but have legacy documents which use older keys for the same entry. This field is consumed by the backend processing and does not appear in the `.bbl`." },
        102 => BibtexField { name: "indexsorttitle", documentation: "The title used when sorting the index. In contrast to indextitle, this field is used for sorting only. The printed title in the index is the indextitle or the title field. This field may be useful if the title contains special characters or commands which interfere with the sorting of the index. Style authors should note that biblatex automatically copies the value of either the indextitle or the title field to indexsorttitle if the latter field is undefined." },
        103 => BibtexField { name: "keywords", documentation: "A separated list of keywords. These keywords are intended for the bibliography filters, they are usually not printed. Note that with the default separator (comma), spaces around the separator are ignored." },
        104 => BibtexField { name: "options", documentation: "A separated list of entry options in *key*=*value* notation. This field is used to set options on a per-entry basis. Note that citation and bibliography styles may define additional entry options." },
        105 => BibtexField { name: "presort", documentation: "A special field used to modify the sorting order of the bibliography. This field is the first item the sorting routine considers when sorting the bibliography, hence it may be used to arrange the entries in groups. This may be useful when creating subdivided bibliographies with the bibliography filters. This field is consumed by the backend processing and does not appear in the `.bbl`." },
        106 => BibtexField { name: "related", documentation: "Citation keys of other entries which have a relationship to this entry. The relationship is specified by the `relatedtype` field." },
        107 => BibtexField { name: "relatedoptions", documentation: "Per-type options to set for a related entry. Note that this does not set the options on the related entry itself, only the `dataonly` clone which is used as a datasource for the parent entry." },
        108 => BibtexField { name: "relatedtype", documentation: "An identifier which specified the type of relationship for the keys listed in the `related` field. The identifier is a localised bibliography string printed before the data from the related entry list. It is also used to identify type-specific formatting directives and bibliography macros for the related entries." },
        109 => BibtexField { name: "relatedstring", documentation: "A field used to override the bibliography string specified by `relatedtype`." },
        110 => BibtexField { name: "sortkey", documentation: "A field used to modify the sorting order of the bibliography. Think of this field as the master sort key. If present, `biblatex` uses this field during sorting and ignores everything else, except for the presort field. This field is consumed by the backend processing and does not appear in the `.bbl`." },
        111 => BibtexField { name: "sortname", documentation: "A name or a list of names used to modify the sorting order of the bibliography. If present, this list is used instead of `author` or `editor` when sorting the bibliography. This field is consumed by the backend processing and does not appear in the `.bbl`." },
        112 => BibtexField { name: "sortshorthand", documentation: "Similar to sortkey but used in the list of shorthands. If present, biblatex uses this field instead of shorthand when sorting the list of shorthands. This is useful if the shorthand field holds shorthands with formatting commands such as `emph` or `\textbf`. This field is consumed by the backend processing and does not appear in the `.bbl`." },
        113 => BibtexField { name: "sorttitle", documentation: "A field used to modify the sorting order of the bibliography. If present, this field is used instead of the title field when sorting the bibliography. The sorttitle field may come in handy if you have an entry with a title like \"An Introduction to…\" and want that alphabetized under ‘I’ rather than ‘A’. In this case, you could put \"Introduction to…\" in the sorttitle field. This field is consumed by the backend processing and does not appear in the `.bbl`." },
        114 => BibtexField { name: "sortyear", documentation: "A field used to modify the sorting order of the bibliography. In the default sorting templates, if this field is present, it is used instead of the year field when sorting the bibliography. This field is consumed by the backend processing and does not appear in the `.bbl`." },
        115 => BibtexField { name: "xdata", documentation: "This field inherits data from one or more `@xdata` entries. Conceptually, the `xdata` field is related to crossref and xref: `crossref` establishes a logical parent/child relation and inherits data; `xref` establishes as logical parent/child relation without inheriting data; `xdata` inherits data without establishing a relation. The value of the `xdata` may be a single entry key or a separated list of keys. This field is consumed by the backend processing and does not appear in the `.bbl`." },
        116 => BibtexField { name: "xref", documentation: "This field is an alternative cross-referencing mechanism. It differs from `crossref` in that the child entry will not inherit any data from the parent entry specified in the `xref` field. If the number of child entries referencing a specific parent entry hits a certain threshold, the parent entry is automatically added to the bibliography even if it has not been cited explicitly. The threshold is settable with the `minxrefs` package option. Style authors should note that whether or not the `xref` fields of the child entries are defined on the `biblatex` level depends on the availability of the parent entry. If the parent entry is available, the `xref` fields of the child entries will be defined. If not, their `xref` fields will be undefined. Whether the parent entry is added to the bibliography implicitly because of the threshold or explicitly because it has been cited does not matter. See also the `crossref` field." },
        117 => BibtexField { name: "namea", documentation: "Custom lists for special bibliography styles. Not used by the standard bibliography styles." },
        118 => BibtexField { name: "nameb", documentation: "Custom lists for special bibliography styles. Not used by the standard bibliography styles." },
        119 => BibtexField { name: "namec", documentation: "Custom lists for special bibliography styles. Not used by the standard bibliography styles." },
        120 => BibtexField { name: "nameatype", documentation: "Similar to `authortype` and `editortype` but referring to the fields `name[a--c]`. Not used by the standard bibliography styles." },
        121 => BibtexField { name: "namebtype", documentation: "Similar to `authortype` and `editortype` but referring to the fields `name[a--c]`. Not used by the standard bibliography styles." },
        122 => BibtexField { name: "namectype", documentation: "Similar to `authortype` and `editortype` but referring to the fields `name[a--c]`. Not used by the standard bibliography styles." },
        123 => BibtexField { name: "lista", documentation: "Custom lists for special bibliography styles. Not used by the standard bibliography styles." },
        124 => BibtexField { name: "listb", documentation: "Custom lists for special bibliography styles. Not used by the standard bibliography styles." },
        125 => BibtexField { name: "listc", documentation: "Custom lists for special bibliography styles. Not used by the standard bibliography styles." },
        126 => BibtexField { name: "listd", documentation: "Custom lists for special bibliography styles. Not used by the standard bibliography styles." },
        127 => BibtexField { name: "liste", documentation: "Custom lists for special bibliography styles. Not used by the standard bibliography styles." },
        128 => BibtexField { name: "listf", documentation: "Custom lists for special bibliography styles. Not used by the standard bibliography styles." },
        129 => BibtexField { name: "usera", documentation: "Custom fields for special bibliography styles. Not used by the standard bibliography styles." },
        130 => BibtexField { name: "userb", documentation: "Custom fields for special bibliography styles. Not used by the standard bibliography styles." },
        131 => BibtexField { name: "userc", documentation: "Custom fields for special bibliography styles. Not used by the standard bibliography styles." },
        132 => BibtexField { name: "userd", documentation: "Custom fields for special bibliography styles. Not used by the standard bibliography styles." },
        133 => BibtexField { name: "usere", documentation: "Custom fields for special bibliography styles. Not used by the standard bibliography styles." },
        134 => BibtexField { name: "userf", documentation: "Custom fields for special bibliography styles. Not used by the standard bibliography styles." },
        135 => BibtexField { name: "verba", documentation: "Similar to the custom fields except that these are verbatim fields. Not used by the standard bibliography styles." },
        136 => BibtexField { name: "verbb", documentation: "Similar to the custom fields except that these are verbatim fields. Not used by the standard bibliography styles." },
        137 => BibtexField { name: "verbc", documentation: "Similar to the custom fields except that these are verbatim fields. Not used by the standard bibliography styles." },
        138 => BibtexField { name: "address", documentation: "An alias for `location`, provided for BibTeX compatibility. Traditional BibTeX uses the slightly misleading field name `address` for the place of publication, i. e., the location of the publisher, while `biblatex` uses the generic field name `location`." },
        139 => BibtexField { name: "annote", documentation: "An alias for `annotation`, provided for jurabib compatibility." },
        140 => BibtexField { name: "archiveprefix", documentation: "An alias for `eprinttype`, provided for arXiv compatibility." },
        141 => BibtexField { name: "journal", documentation: "An alias for `journaltitle`, provided for BibTeX compatibility." },
        142 => BibtexField { name: "key", documentation: "An alias for `sortkey`, provided for BibTeX compatibility." },
        143 => BibtexField { name: "pdf", documentation: "An alias for `file`, provided for JabRef compatibility." },
        144 => BibtexField { name: "primaryclass", documentation: "An alias for `eprintclass`, provided for arXiv compatibility." },
        145 => BibtexField { name: "school", documentation: "An alias for `institution`, provided for BibTeX compatibility. The `institution` field is used by traditional BibTeX for technical reports whereas the `school` field holds the institution associated with theses. The `biblatex` package employs the generic field name `institution` in both cases." },
        _ => BibtexField { name: "", documentation: "" },
    }
}

/// The known bibliography fields.
pub fn bibtex_fields() -> (r: Vec<BibtexField>)
    ensures
        r@.map_values(|f: BibtexField| field_view(f)) == bibtex_field_table(),
{
    let mut fields: Vec<BibtexField> = Vec::new();
    let mut i: usize = 0;
    while i < BIBTEX_FIELD_COUNT
        invariant
            i <= BIBTEX_FIELD_COUNT,
            fields@.map_values(|f: BibtexField| field_view(f)) == bibtex_field_table().take(i as int),
        decreases BIBTEX_FIELD_COUNT - i,
    {
        let field = bibtex_field(i);
        let ghost before = fields@;
        fields.push(field);
        proof {
            assert(fields@ == before.push(field));
            lemma_map_push(before, field, |f: BibtexField| field_view(f));
            assert(bibtex_field_table()[i as int] == bibtex_field_at(i));
            assert(bibtex_field_table().take(i + 1) =~= bibtex_field_table().take(i as int).push(bibtex_field_at(i)));
        }
        i = i + 1;
    }
    proof {
        assert(bibtex_field_table().take(i as int) == bibtex_field_table());
    }
    fields
}

/// The documentation of the field named `name`, if it is known.
pub fn get_documentation(name: &str) -> (r: Option<&'static str>)
    ensures
        match r {
            Some(d) => documentation_in(bibtex_field_table(), name@) == Some(d@),
            None => documentation_in(bibtex_field_table(), name@).is_none(),
        },
{
    let wanted = name.to_owned();
    let ghost table = bibtex_field_table();
    proof {
        assert(table.skip(0) == table);
    }
    let mut i: usize = 0;
    while i < BIBTEX_FIELD_COUNT
        invariant
            i <= BIBTEX_FIELD_COUNT,
            table == bibtex_field_table(),
            wanted@ == name@,
            documentation_in(table, name@) == documentation_in(table.skip(i as int), name@),
        decreases BIBTEX_FIELD_COUNT - i,
    {
        proof {
            assert(table.skip(i as int).drop_first() =~= table.skip(i + 1));
            assert(table.skip(i as int)[0] == table[i as int]);
        }
        let field = bibtex_field(i);
        if field.name.to_owned() == wanted {
            return Some(field.documentation);
        }
        i = i + 1;
    }
    proof {
        assert(table.skip(i as int).len() == 0);
    }
    None
}

} // verus!
