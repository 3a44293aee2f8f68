use game_of_life::driver::GL_DRIVER;
use game_of_life::find_sdl_gl_driver;

fn names(list: &[&str]) -> Vec<String> {
    list.iter().map(|name| name.to_string()).collect()
}

#[test]
fn the_driver_is_called_opengl() {
    assert_eq!(GL_DRIVER, "opengl");
}

#[test]
fn the_place_of_the_driver_is_found() {
    assert_eq!(find_sdl_gl_driver(&names(&["opengl"])), Some(0));
    assert_eq!(find_sdl_gl_driver(&names(&["software", "opengl", "opengles2"])), Some(1));
    assert_eq!(
        find_sdl_gl_driver(&names(&["direct3d", "opengles2", "software", "opengl"])),
        Some(3)
    );
}

#[test]
fn the_first_of_two_is_found() {
    assert_eq!(find_sdl_gl_driver(&names(&["software", "opengl", "opengl"])), Some(1));
}

#[test]
fn no_driver_is_found_where_none_has_the_name() {
    assert_eq!(find_sdl_gl_driver(&names(&[])), None);
    assert_eq!(find_sdl_gl_driver(&names(&["software", "opengles2", "OpenGL", "opengl "])), None);
}
