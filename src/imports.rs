use vstd::prelude::*;

verus! {

/// How a binding of an import statement was classified.
#[derive(Clone, Copy, Debug, PartialEq, Eq, Structural)]
pub enum TypeScriptImportType {
    Unknown,
    NamedImport,
    NamespaceImport,
}

/// The part that one capture of the import pattern plays in its statement.
#[derive(Clone, Copy, Debug, PartialEq, Eq, Structural)]
pub enum CaptureRole {
    /// The whole import statement.
    StatementStart,
    /// One `import_specifier` between braces.
    SpecifierGroup,
    /// A default binding or the name of a named specifier.
    NamedBinding,
    /// The name after `* as`.
    NamespaceBinding,
    /// The name after `as` in a named specifier.
    Alias,
    /// The quoted module path.
    ModuleSource,
    /// Anything else the pattern captured.
    Other,
}

/// One capture of a match, with the source text it spans.
pub struct ImportCapture {
    pub role: CaptureRole,
    pub text: String,
}

impl View for ImportCapture {
    type V = (CaptureRole, Seq<char>);

    open spec fn view(&self) -> (CaptureRole, Seq<char>) {
        (self.role, self.text@)
    }
}

/// One binding introduced by an import statement.
#[derive(Debug)]
pub struct TypeScriptImport {
    import_source: String,
    import_type: TypeScriptImportType,
    import_name: String,
    import_alias: Option<String>,
}

/// The mathematical value of a `TypeScriptImport`.
pub struct ImportView {
    pub source: Seq<char>,
    pub kind: TypeScriptImportType,
    pub name: Seq<char>,
    pub alias: Option<Seq<char>>,
}

pub open spec fn opt_view(o: Option<String>) -> Option<Seq<char>> {
    match o {
        Some(s) => Some(s@),
        None => None,
    }
}

impl View for TypeScriptImport {
    type V = ImportView;

    closed spec fn view(&self) -> ImportView {
        ImportView {
            source: self.import_source@,
            kind: self.import_type,
            name: self.import_name@,
            alias: opt_view(self.import_alias),
        }
    }
}

/// The records of a statement before any capture has filled them in.
pub open spec fn empty_record() -> ImportView {
    ImportView { source: Seq::empty(), kind: TypeScriptImportType::Unknown, name: Seq::empty(), alias: None }
}

/// What has been reconstructed of one match so far: the pending records, and
/// whether the current specifier group has already received its binding.
pub struct ImportState {
    pub records: Seq<ImportView>,
    pub group_open: bool,
}

pub open spec fn initial_state() -> ImportState {
    ImportState { records: Seq::empty(), group_open: false }
}

/// Sets the binding of the most recently opened record, if there is one.
pub open spec fn bind_last(st: ImportState, kind: TypeScriptImportType, text: Seq<char>) -> ImportState {
    if st.records.len() > 0 {
        let last = st.records.last();
        ImportState {
            records: st.records.update(
                st.records.len() - 1,
                ImportView { kind: kind, name: text, ..last },
            ),
            group_open: true,
        }
    } else {
        st
    }
}

/// The effect of one capture on the reconstruction of its match.
pub open spec fn step(st: ImportState, role: CaptureRole, text: Seq<char>) -> ImportState {
    match role {
        CaptureRole::StatementStart => ImportState { records: st.records.push(empty_record()), ..st },
        CaptureRole::SpecifierGroup => if st.group_open {
            ImportState { records: st.records.push(empty_record()), ..st }
        } else {
            ImportState { group_open: true, ..st }
        },
        CaptureRole::NamedBinding => bind_last(st, TypeScriptImportType::NamedImport, text),
        CaptureRole::NamespaceBinding => bind_last(st, TypeScriptImportType::NamespaceImport, text),
        CaptureRole::Alias => if st.records.len() > 0 {
            let last = st.records.last();
            ImportState {
                records: st.records.update(st.records.len() - 1, ImportView { alias: Some(text), ..last }),
                ..st
            }
        } else {
            st
        },
        CaptureRole::ModuleSource => ImportState {
            records: st.records.map_values(|r: ImportView| ImportView { source: text, ..r }),
            ..st
        },
        CaptureRole::Other => st,
    }
}

/// The state after the captures of one match, taken in the order given.
pub open spec fn fold_captures(caps: Seq<(CaptureRole, Seq<char>)>) -> ImportState
    decreases caps.len(),
{
    if caps.len() == 0 {
        initial_state()
    } else {
        let prev = fold_captures(caps.drop_last());
        step(prev, caps.last().0, caps.last().1)
    }
}

/// The import records that one match yields.
pub open spec fn match_imports(caps: Seq<(CaptureRole, Seq<char>)>) -> Seq<ImportView> {
    fold_captures(caps).records
}

/// The import records of all matches, in match order.
pub open spec fn imports_of(matches: Seq<Seq<(CaptureRole, Seq<char>)>>) -> Seq<ImportView>
    decreases matches.len(),
{
    if matches.len() == 0 {
        Seq::empty()
    } else {
        imports_of(matches.drop_last()) + match_imports(matches.last())
    }
}

pub open spec fn captures_view(caps: Seq<ImportCapture>) -> Seq<(CaptureRole, Seq<char>)> {
    caps.map_values(|c: ImportCapture| c@)
}

pub open spec fn matches_view(ms: Seq<Vec<ImportCapture>>) -> Seq<Seq<(CaptureRole, Seq<char>)>> {
    ms.map_values(|m: Vec<ImportCapture>| captures_view(m@))
}

pub open spec fn records_view(rs: Seq<TypeScriptImport>) -> Seq<ImportView> {
    rs.map_values(|r: TypeScriptImport| r@)
}

fn clone_alias(a: &Option<String>) -> (r: Option<String>)
    ensures
        opt_view(r) == opt_view(*a),
{
    match a {
        Some(s) => Some(s.clone()),
        None => None,
    }
}

impl TypeScriptImport {
    fn empty() -> (r: TypeScriptImport)
        ensures
            r@ == empty_record(),
    {
        TypeScriptImport {
            import_source: String::new(),
            import_type: TypeScriptImportType::Unknown,
            import_name: String::new(),
            import_alias: None,
        }
    }

    /// The quoted module path of the statement, quotes included.
    pub fn get_import_source(&self) -> (r: &String)
        ensures
            r@ == self@.source,
    {
        &self.import_source
    }

    pub fn get_import_type(&self) -> (r: TypeScriptImportType)
        ensures
            r == self@.kind,
    {
        self.import_type
    }

    pub fn get_import_name(&self) -> (r: &String)
        ensures
            r@ == self@.name,
    {
        &self.import_name
    }

    pub fn get_import_alias(&self) -> (r: Option<String>)
        ensures
            opt_view(r) == self@.alias,
    {
        clone_alias(&self.import_alias)
    }
}

/// Gives every pending record the module path `text`.
fn set_sources(records: Vec<TypeScriptImport>, text: &String) -> (r: Vec<TypeScriptImport>)
    ensures
        records_view(r@) == records_view(records@).map_values(
            |x: ImportView| ImportView { source: text@, ..x },
        ),
{
    let mut out: Vec<TypeScriptImport> = Vec::new();
    let mut i: usize = 0;
    while i < records.len()
        invariant
            i <= records@.len(),
            out@.len() == i,
            forall|j: int|
                0 <= j < i ==> #[trigger] out@[j]@ == (ImportView { source: text@, ..records@[j]@ }),
        decreases records@.len() - i,
    {
        let rec = &records[i];
        out.push(
            TypeScriptImport {
                import_source: text.clone(),
                import_type: rec.import_type,
                import_name: rec.import_name.clone(),
                import_alias: clone_alias(&rec.import_alias),
            },
        );
        i = i + 1;
    }
    assert(records_view(out@) =~= records_view(records@).map_values(
        |x: ImportView| ImportView { source: text@, ..x },
    ));
    out
}

/// Reconstructs the import records of one match from its captures, taken in
/// the order that the query engine gave them.
pub fn reconstruct_match(captures: &Vec<ImportCapture>) -> (r: Vec<TypeScriptImport>)
    ensures
        records_view(r@) == match_imports(captures_view(captures@)),
{
    let mut records: Vec<TypeScriptImport> = Vec::new();
    let mut group_open = false;
    let mut i: usize = 0;
    assert(captures_view(captures@.take(0)) =~= Seq::empty());
    assert(records_view(records@) =~= Seq::empty());
    while i < captures.len()
        invariant
            i <= captures@.len(),
            (ImportState { records: records_view(records@), group_open: group_open })
                == fold_captures(captures_view(captures@.take(i as int))),
        decreases captures@.len() - i,
    {
        let ghost before = records_view(records@);
        let cap = &captures[i];
        assert(captures_view(captures@.take(i + 1)).drop_last() =~= captures_view(
            captures@.take(i as int),
        ));
        assert(captures_view(captures@.take(i + 1)).last() == cap@);
        match cap.role {
            CaptureRole::StatementStart => {
                records.push(TypeScriptImport::empty());
                assert(records_view(records@) =~= before.push(empty_record()));
            },
            CaptureRole::SpecifierGroup => {
                if group_open {
                    records.push(TypeScriptImport::empty());
                    assert(records_view(records@) =~= before.push(empty_record()));
                } else {
                    group_open = true;
                }
            },
            CaptureRole::NamedBinding | CaptureRole::NamespaceBinding => {
                if records.len() > 0 {
                    let mut last = records.pop().unwrap();
                    last.import_name = cap.text.clone();
                    last.import_type =
                        if cap.role == CaptureRole::NamedBinding {
                            TypeScriptImportType::NamedImport
                        } else {
                            TypeScriptImportType::NamespaceImport
                        };
                    records.push(last);
                    group_open = true;
                    assert(records_view(records@) =~= before.update(
                        before.len() - 1,
                        ImportView { kind: last.import_type, name: cap.text@, ..before.last() },
                    ));
                }
            },
            CaptureRole::Alias => {
                if records.len() > 0 {
                    let mut last = records.pop().unwrap();
                    last.import_alias = Some(cap.text.clone());
                    records.push(last);
                    assert(records_view(records@) =~= before.update(
                        before.len() - 1,
                        ImportView { alias: Some(cap.text@), ..before.last() },
                    ));
                }
            },
            CaptureRole::ModuleSource => {
                records = set_sources(records, &cap.text);
            },
            CaptureRole::Other => {},
        }
        i = i + 1;
    }
    assert(captures@.take(captures@.len() as int) =~= captures@);
    records
}

/// Reconstructs the import records of all matches, in match order.
pub fn reconstruct_imports(matches: &Vec<Vec<ImportCapture>>) -> (r: Vec<TypeScriptImport>)
    ensures
        records_view(r@) == imports_of(matches_view(matches@)),
{
    let mut out: Vec<TypeScriptImport> = Vec::new();
    let mut i: usize = 0;
    assert(matches_view(matches@.take(0)) =~= Seq::empty());
    assert(records_view(out@) =~= Seq::empty());
    while i < matches.len()
        invariant
            i <= matches@.len(),
            records_view(out@) == imports_of(matches_view(matches@.take(i as int))),
        decreases matches@.len() - i,
    {
        let mut part = reconstruct_match(&matches[i]);
        let ghost before = records_view(out@);
        let ghost added = records_view(part@);
        assert(matches_view(matches@.take(i + 1)).drop_last() =~= matches_view(
            matches@.take(i as int),
        ));
        assert(matches_view(matches@.take(i + 1)).last() == captures_view(matches@[i as int]@));
        out.append(&mut part);
        assert(records_view(out@) =~= before + added);
        i = i + 1;
    }
    assert(matches@.take(matches@.len() as int) =~= matches@);
    out
}

/// Reconstruction is deterministic: captures with the same roles and texts,
/// in the same order, yield the same records.
pub proof fn lemma_reconstruction_deterministic(a: Seq<Vec<ImportCapture>>, b: Seq<Vec<ImportCapture>>)
    requires
        matches_view(a) == matches_view(b),
    ensures
        imports_of(matches_view(a)) == imports_of(matches_view(b)),
{
}

} // verus!
