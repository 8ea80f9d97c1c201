use praisechords::songs::{SongListItem, SongsListTemplate};

#[test]
fn songs_list_shows_inserted_by() {
    let song = SongListItem {
        id: 1,
        code: "W0001".into(),
        name: "Teste".into(),
        org_name: String::new(),
        composer: String::new(),
        artistas: String::new(),
        org_key: String::new(),
        youtube: None,
        favorite: false,
        view_count: 0,
        inserted_by: "Utilizador Teste".into(),
        updated_by: String::new(),
        can_edit: true,
        is_pending: false,
        can_delete: false,
        can_approve: false,
    };
    let tpl = SongsListTemplate { heading: "Resultados da Pesquisa".to_string(), songs: vec![song] };
    let html = tpl.render().expect("render falhou");
    assert!(
        html.contains("Inserido por Utilizador Teste"),
        "o HTML não contém 'Inserido por':\n{html}"
    );
}

#[test]
fn songs_list_hides_corrected_when_same_user() {
    let song = SongListItem {
        id: 1,
        code: "W0001".into(),
        name: "Teste".into(),
        org_name: String::new(),
        composer: String::new(),
        artistas: String::new(),
        org_key: String::new(),
        youtube: None,
        favorite: false,
        view_count: 0,
        inserted_by: "Ana".into(),
        updated_by: "Ana".into(),
        can_edit: true,
        is_pending: false,
        can_delete: false,
        can_approve: false,
    };
    let tpl = SongsListTemplate { heading: "Resultados da Pesquisa".to_string(), songs: vec![song] };
    let html = tpl.render().expect("render falhou");
    assert!(html.contains("Inserido por Ana"));
    assert!(!html.contains("Corrigido por"), "não deve mostrar 'Corrigido por' quando é o mesmo utilizador:\n{html}");
}
